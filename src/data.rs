use vstd::prelude::*;

verus! {

/// How results are handed back to the editor.
#[derive(PartialEq, Eq, Structural, Clone, Copy, Debug)]
pub enum ReturnMessageType {
    EchoMsg,
    Multiline,
}

/// State kept between two runs, so that an interpreter can behave like a REPL.
#[derive(Clone, Default, Debug)]
pub struct InterpreterData {
    /// The interpreter the content belongs to; another interpreter must not use it.
    pub owner: String,
    /// The saved content, usually a marker or the previous code.
    pub content: String,
    /// The process id of a linked REPL, if there is one.
    pub pid: Option<u32>,
}

impl InterpreterData {
    /// An empty record, owned by nobody.
    pub fn new() -> (r: InterpreterData)
        ensures
            r.owner@.len() == 0,
            r.content@.len() == 0,
            r.pid is None,
    {
        InterpreterData { owner: String::new(), content: String::new(), pid: None }
    }
}

/// What the previous run recorded for `owner`: the content when `owner` owns it,
/// nothing otherwise.
pub open spec fn previous_content(d: InterpreterData, owner: Seq<char>) -> Seq<char> {
    if d.owner@ == owner {
        d.content@
    } else {
        Seq::empty()
    }
}

/// The inputs of one run: what the editor sent and the user's configuration.
#[derive(Clone)]
pub struct DataHolder {
    /// The filetype of the edited file.
    pub filetype: String,
    /// The line the cursor is on.
    pub current_line: String,
    /// The selected block of lines.
    pub current_bloc: String,
    /// The first and last line of the selection, inclusive.
    pub range: [i64; 2],
    /// Path of the edited file.
    pub filepath: String,
    /// Root of the project; left blank.
    pub projectroot: String,
    /// Paths of dependencies; left empty.
    pub dependencies_path: Vec<String>,
    /// The cache directory in which interpreters keep their files.
    pub work_dir: String,
    /// Where the plugin is installed.
    pub sniprun_root_dir: String,
    /// Interpreters the user chose explicitly.
    pub selected_interpreters: Vec<String>,
    /// Interpreters for which the user asked REPL-like behaviour.
    pub repl_enabled: Vec<String>,
    /// Interpreters for which the user turned REPL-like behaviour off.
    pub repl_disabled: Vec<String>,
    /// What the previous run left for the next one.
    pub interpreter_data: InterpreterData,
    /// How results are handed back.
    pub return_message_type: ReturnMessageType,
}

impl DataHolder {
    /// An almost empty set of inputs whose interpreters work under `work_dir`.
    pub fn new(work_dir: String) -> (r: DataHolder)
        ensures
            r.filetype@.len() == 0,
            r.current_line@.len() == 0,
            r.current_bloc@.len() == 0,
            r.range[0] == -1 && r.range[1] == -1,
            r.filepath@.len() == 0,
            r.projectroot@.len() == 0,
            r.dependencies_path@.len() == 0,
            r.work_dir@ == work_dir@,
            r.sniprun_root_dir@.len() == 0,
            r.selected_interpreters@.len() == 0,
            r.repl_enabled@.len() == 0,
            r.repl_disabled@.len() == 0,
            r.interpreter_data.owner@.len() == 0,
            r.interpreter_data.content@.len() == 0,
            r.interpreter_data.pid is None,
            r.return_message_type == ReturnMessageType::Multiline,
    {
        DataHolder {
            filetype: String::new(),
            current_line: String::new(),
            current_bloc: String::new(),
            range: [-1, -1],
            filepath: String::new(),
            projectroot: String::new(),
            dependencies_path: Vec::new(),
            work_dir,
            sniprun_root_dir: String::new(),
            selected_interpreters: Vec::new(),
            repl_enabled: Vec::new(),
            repl_disabled: Vec::new(),
            interpreter_data: InterpreterData::new(),
            return_message_type: ReturnMessageType::Multiline,
        }
    }
}

} // verus!
