use vstd::prelude::*;
use vstd::string::*;
use crate::data::{DataHolder, InterpreterData, previous_content};
use crate::error::SniprunError;
use crate::imports::{module_used, module_used_exec};
use crate::level::{SupportLevel, level_lt};
use crate::text::{
    names_contain, contains_name,
    blank, chars_of, contains, contains_chars, first_non_ws_eq, first_non_ws_is, is_blank,
    lines_of, only_spaces, spaces_only, split_lines, string_of, unindent_text, unindented, views,
};

verus! {

/// The name under which this interpreter is known.
pub open spec fn python3_original_name() -> Seq<char> {
    "Python3_original"@
}

/// `line` is an import statement that `code` uses: it holds `import `, is not
/// a comment, and passes the usage test.
pub open spec fn is_used_import(line: Seq<char>, code: Seq<char>) -> bool {
    contains(line, "import "@) && !first_non_ws_is(line, '#') && module_used(line, code)
}

/// The import lines among `lines` that `code` uses, each preceded by a line feed.
pub open spec fn used_imports(lines: Seq<Seq<char>>, code: Seq<char>) -> Seq<char>
    decreases lines.len(),
{
    if lines.len() == 0 {
        Seq::empty()
    } else {
        used_imports(lines.drop_last(), code) + if is_used_import(lines.last(), code) {
            "\n"@ + lines.last()
        } else {
            Seq::empty()
        }
    }
}

/// `line` inside its own `try` block, so that a failure in it is ignored.
pub open spec fn guard(line: Seq<char>) -> Seq<char> {
    "try:\n\t"@ + line + "\nexcept:\n\tpass\n"@
}

/// Each of `lines` that is not blank, in its own guard, one after the other.
pub open spec fn guarded_lines(lines: Seq<Seq<char>>) -> Seq<char>
    decreases lines.len(),
{
    if lines.len() == 0 {
        Seq::empty()
    } else {
        guarded_lines(lines.drop_last()) + if is_blank(lines.last()) {
            Seq::empty()
        } else {
            guard(lines.last())
        }
    }
}

/// The import lines, each wrapped on its own so that a missing module stops
/// neither the other imports nor the code.
pub open spec fn guarded_imports(imports: Seq<char>) -> Seq<char> {
    guarded_lines(lines_of(imports))
}

/// Wraps each import line that is not blank in its own `try` block.
pub fn guard_imports(imports: &str) -> (r: String)
    ensures
        r@ == guarded_imports(imports@),
{
    let text = chars_of(imports);
    let lines = split_lines(&text);
    let mut r = String::new();
    let mut i: usize = 0;
    while i < lines.len()
        invariant
            i <= lines@.len(),
            views(lines@) == lines_of(imports@),
            r@ == guarded_lines(views(lines@).take(i as int)),
        decreases lines@.len() - i,
    {
        proof {
            assert(views(lines@)[i as int] == lines@[i as int]@);
            assert(views(lines@).take(i + 1).drop_last() =~= views(lines@).take(i as int));
        }
        if !blank(&lines[i]) {
            r.append("try:\n\t");
            let l = string_of(lines[i].as_slice());
            r.append(l.as_str());
            r.append("\nexcept:\n\tpass\n");
        }
        i += 1;
        proof {
            assert(r@ =~= guarded_lines(views(lines@).take(i as int)));
        }
    }
    proof {
        assert(views(lines@).take(lines@.len() as int) =~= views(lines@));
    }
    r
}

/// The code to run, taken from the inputs at `level`: the block when the level
/// allows it and the block is not blank; else the line when the level allows
/// it and the line is not only spaces; else nothing.
pub open spec fn fetched_code(data: DataHolder, level: SupportLevel) -> Seq<char> {
    if !is_blank(data.current_bloc@) && !level_lt(level, SupportLevel::Bloc) {
        data.current_bloc@
    } else if !only_spaces(data.current_line@) && !level_lt(level, SupportLevel::Line) {
        data.current_line@
    } else {
        Seq::empty()
    }
}

/// The imports after `fetch_code`, for an interpreter with inputs `data` at
/// `level` holding `imports`, given the text of the file if it could be read:
/// at level `Import` and above, the import lines of the file that the code
/// being run uses are added.
pub open spec fn fetched_imports(
    data: DataHolder,
    level: SupportLevel,
    imports: Seq<char>,
    file_contents: Option<Seq<char>>,
) -> Seq<char> {
    match file_contents {
        Some(c) => if level_lt(level, SupportLevel::Import) {
            imports
        } else {
            imports + used_imports(lines_of(c), fetched_code(data, level))
        },
        None => imports,
    }
}

/// What a REPL-like run leaves in the store `after`, from the store `before`:
/// on a first run, the marker, owned by this interpreter; otherwise nothing
/// changes.
pub open spec fn store_after(before: InterpreterData, after: InterpreterData, first_run: bool) -> bool {
    if first_run {
        &&& after.owner@ == python3_original_name()
        &&& after.content@ == first_run_marker()
        &&& after.pid == before.pid
    } else {
        after == before
    }
}

/// The inputs ask for a REPL-like run and nothing was saved for this
/// interpreter yet.
pub open spec fn repl_first_run(data: DataHolder) -> bool {
    repl_wanted(data) && previous_content(data.interpreter_data, python3_original_name()).len() == 0
}

/// Option of a string, seen as an option of its characters.
pub open spec fn opt_view(o: Option<&str>) -> Option<Seq<char>> {
    match o {
        Some(s) => Some(s@),
        None => None,
    }
}

/// The interpreter behaves like a REPL for these inputs: it is capable of it
/// and does not by default, so only when the user enabled it for this
/// interpreter.
pub open spec fn repl_wanted(data: DataHolder) -> bool {
    names_contain(data.repl_enabled@, python3_original_name())
}

/// The program a run prepares for an interpreter with inputs `data` at
/// `level`, holding `imports`, with its files under `cache_dir`:
/// the REPL-like program when the inputs ask for it, else the guarded imports
/// followed by the code.
pub open spec fn prepared_program(
    data: DataHolder,
    level: SupportLevel,
    imports: Seq<char>,
    cache_dir: Seq<char>,
    file_contents: Option<Seq<char>>,
    python_functions: Seq<char>,
) -> Seq<char> {
    let imports = fetched_imports(data, level, imports, file_contents);
    let code = fetched_code(data, level);
    if repl_wanted(data) {
        repl_program(
            guarded_imports(imports),
            python_functions,
            cache_dir,
            code,
            previous_content(data.interpreter_data, python3_original_name()).len() == 0,
        )
    } else {
        guarded_imports(imports) + unindented("\n"@ + code)
    }
}

/// The file the memo store of variables lives in, quoted for Python.
pub open spec fn memo_path(cache_dir: Seq<char>) -> Seq<char> {
    "'"@ + cache_dir + "/memo'"@
}

/// The marker saved after the first REPL-like run.
pub open spec fn first_run_marker() -> Seq<char> {
    "Not the first run anymore"@
}

/// The program a REPL-like run executes: imports, helper functions, a load of
/// the saved variables unless this is the first run, the code, and a save of
/// the variables.
pub open spec fn repl_program(
    imports: Seq<char>,
    functions: Seq<char>,
    cache_dir: Seq<char>,
    code: Seq<char>,
    first_run: bool,
) -> Seq<char> {
    repl_program_around(imports, functions, cache_dir, unindented("\n"@ + code), first_run)
}

/// The REPL-like program around `body`, the code already moved to column zero.
pub open spec fn repl_program_around(
    imports: Seq<char>,
    functions: Seq<char>,
    cache_dir: Seq<char>,
    body: Seq<char>,
    first_run: bool,
) -> Seq<char> {
    imports + "\n"@ + functions + "\n"@ + (if first_run {
        Seq::empty()
    } else {
        load_call(cache_dir) + "\n"@
    }) + body + "\n"@ + save_call(cache_dir)
}

/// Builds the REPL-like program around `body`, the code already moved to
/// column zero.
pub fn build_repl_program(
    imports: &str,
    functions: &str,
    cache_dir: &str,
    body: &str,
    first_run: bool,
) -> (r: String)
    ensures
        r@ == repl_program_around(imports@, functions@, cache_dir@, body@, first_run),
{
    let memo = String::from_str("'").concat(cache_dir).concat("/memo'");
    let mut p = String::from_str(imports);
    p.append("\n");
    p.append(functions);
    p.append("\n");
    if !first_run {
        p.append("sniprun142859_load(");
        p.append(memo.as_str());
        p.append(")");
        p.append("\n");
    }
    p.append(body);
    p.append("\n");
    p.append("sniprun142859_save(");
    p.append(memo.as_str());
    p.append(")");
    proof {
        assert(p@ =~= repl_program_around(imports@, functions@, cache_dir@, body@, first_run));
    }
    p
}

/// The Python call that loads the saved variables.
pub open spec fn load_call(cache_dir: Seq<char>) -> Seq<char> {
    "sniprun142859_load("@ + memo_path(cache_dir) + ")"@
}

/// The Python call that saves the variables.
pub open spec fn save_call(cache_dir: Seq<char>) -> Seq<char> {
    "sniprun142859_save("@ + memo_path(cache_dir) + ")"@
}

/// REPL-like continuity. A first run (nothing saved for this interpreter)
/// leaves a record that the next run sees as saved content, and its program
/// loads nothing: the helper functions are followed directly by the code. The
/// next run, against that record, loads the saved variables right before the
/// code; both save the variables after the code.
pub proof fn lemma_repl_persistence(
    store: InterpreterData,
    after_first: InterpreterData,
    imports: Seq<char>,
    functions: Seq<char>,
    cache_dir: Seq<char>,
    code: Seq<char>,
)
    requires
        previous_content(store, python3_original_name()).len() == 0,
        after_first.owner@ == python3_original_name(),
        after_first.content@ == first_run_marker(),
    ensures
        previous_content(after_first, python3_original_name()).len() > 0,
        repl_program(
            imports,
            functions,
            cache_dir,
            code,
            previous_content(store, python3_original_name()).len() == 0,
        ) == imports + "\n"@ + functions + "\n"@ + unindented("\n"@ + code) + "\n"@ + save_call(
            cache_dir,
        ),
        repl_program(
            imports,
            functions,
            cache_dir,
            code,
            previous_content(after_first, python3_original_name()).len() == 0,
        ) == imports + "\n"@ + functions + "\n"@ + load_call(cache_dir) + "\n"@ + unindented(
            "\n"@ + code,
        ) + "\n"@ + save_call(cache_dir),
{
    reveal_strlit("Not the first run anymore");
    let a = imports + "\n"@ + functions + "\n"@;
    let u = unindented("\n"@ + code);
    let t = "\n"@ + save_call(cache_dir);
    assert(a + Seq::<char>::empty() + u + t =~= a + u + t);
    assert(a + (load_call(cache_dir) + "\n"@) + u + t =~= a + load_call(cache_dir) + "\n"@ + u
        + t);
}

/// The error message of a failed run: the last line of `stderr` that is not
/// blank, or the whole of it when there is none.
pub open spec fn runtime_message(stderr: Seq<char>) -> Seq<char> {
    match last_non_blank(lines_of(stderr)) {
        Some(l) => l,
        None => stderr,
    }
}

/// The last of `lines` that is not blank.
pub open spec fn last_non_blank(lines: Seq<Seq<char>>) -> Option<Seq<char>>
    decreases lines.len(),
{
    if lines.len() == 0 {
        None
    } else if !is_blank(lines.last()) {
        Some(lines.last())
    } else {
        last_non_blank(lines.drop_last())
    }
}

/// The reference Python 3 interpreter: runs code through `python3`, adds the
/// imports of the file the code uses, and keeps variables between runs when
/// asked to behave like a REPL.
#[derive(Clone)]
#[allow(non_camel_case_types)]
pub struct Python3_original {
    pub support_level: SupportLevel,
    pub data: DataHolder,
    pub code: String,
    pub imports: String,
    pub main_file_path: String,
    pub plugin_root: String,
    pub cache_dir: String,
}

impl Python3_original {
    pub fn get_name() -> (r: String)
        ensures
            r@ == python3_original_name(),
    {
        String::from_str("Python3_original")
    }

    pub fn behave_repl_like_default() -> (r: bool)
        ensures
            !r,
    {
        false
    }

    pub fn has_repl_capability() -> (r: bool)
        ensures
            r,
    {
        true
    }

    pub fn has_treesitter_capability() -> (r: bool)
        ensures
            !r,
    {
        false
    }

    pub fn default_for_filetype() -> (r: bool)
        ensures
            r,
    {
        true
    }

    pub fn get_supported_languages() -> (r: Vec<String>)
        ensures
            r@.len() == 4,
            r@[0]@ == "Python 3"@,
            r@[1]@ == "python"@,
            r@[2]@ == "python3"@,
            r@[3]@ == "py"@,
    {
        let mut v: Vec<String> = Vec::new();
        v.push(String::from_str("Python 3"));
        v.push(String::from_str("python"));
        v.push(String::from_str("python3"));
        v.push(String::from_str("py"));
        v
    }

    pub fn get_max_support_level() -> (r: SupportLevel)
        ensures
            r == SupportLevel::Import,
    {
        SupportLevel::Import
    }

    /// An interpreter for `data` at `level`, with its files under
    /// `<work_dir>/python3_original`.
    pub fn new_with_level(data: DataHolder, level: SupportLevel) -> (r: Python3_original)
        ensures
            r.support_level == level,
            r.data == data,
            r.code@ == Seq::<char>::empty(),
            r.imports@ == Seq::<char>::empty(),
            r.cache_dir@ == data.work_dir@ + "/python3_original"@,
            r.main_file_path@ == data.work_dir@ + "/python3_original"@ + "/main.py"@,
            r.plugin_root@ == data.sniprun_root_dir@,
    {
        let rwd = data.work_dir.clone().concat("/python3_original");
        let mfp = rwd.clone().concat("/main.py");
        let pgr = data.sniprun_root_dir.clone();
        Python3_original {
            data,
            support_level: level,
            code: String::new(),
            imports: String::new(),
            main_file_path: mfp,
            plugin_root: pgr,
            cache_dir: rwd,
        }
    }

    /// An interpreter for `data` at its highest level.
    pub fn new(data: DataHolder) -> (r: Python3_original)
        ensures
            r.support_level == SupportLevel::Import,
            r.data == data,
            r.code@ == Seq::<char>::empty(),
            r.imports@ == Seq::<char>::empty(),
            r.cache_dir@ == data.work_dir@ + "/python3_original"@,
            r.main_file_path@ == data.work_dir@ + "/python3_original"@ + "/main.py"@,
            r.plugin_root@ == data.sniprun_root_dir@,
    {
        Python3_original::new_with_level(data, Python3_original::get_max_support_level())
    }

    pub fn get_current_level(&self) -> (r: SupportLevel)
        ensures
            r == self.support_level,
    {
        self.support_level
    }

    pub fn set_current_level(&mut self, level: SupportLevel)
        ensures
            *final(self) == (Python3_original { support_level: level, ..*old(self) }),
    {
        self.support_level = level;
    }

    pub fn get_data(&self) -> (r: &DataHolder)
        ensures
            *r == self.data,
    {
        &self.data
    }

    /// Adds to the imports the import lines of the file (whose text is
    /// `contents`) that the code being run uses, when the level is at least
    /// `Import`. That code is the block, which becomes the code, unless the
    /// block is blank; then it is the code already held.
    pub fn fetch_imports(&mut self, contents: &str)
        ensures
            level_lt(old(self).support_level, SupportLevel::Import) ==> *final(self) == *old(self),
            !level_lt(old(self).support_level, SupportLevel::Import) ==> {
                &&& final(self).code@ == if is_blank(old(self).data.current_bloc@) {
                    old(self).code@
                } else {
                    old(self).data.current_bloc@
                }
                &&& final(self).imports@ == old(self).imports@ + used_imports(
                    lines_of(contents@),
                    final(self).code@,
                )
            },
            *final(self) == (Python3_original {
                imports: final(self).imports,
                code: final(self).code,
                ..*old(self)
            }),
    {
        if self.support_level.lt(&SupportLevel::Import) {
            return;
        }
        let bloc = chars_of(self.data.current_bloc.as_str());
        if !blank(&bloc) {
            self.code = self.data.current_bloc.clone();
        }
        let code = chars_of(self.code.as_str());
        let text = chars_of(contents);
        let lines = split_lines(&text);
        let import_kw = chars_of("import ");
        proof {
            reveal_strlit("import ");
        }
        let ghost start = self.imports@;
        let mut i: usize = 0;
        while i < lines.len()
            invariant
                i <= lines@.len(),
                views(lines@) == lines_of(contents@),
                code@ == self.code@,
                self.code@ == if is_blank(old(self).data.current_bloc@) {
                    old(self).code@
                } else {
                    old(self).data.current_bloc@
                },
                import_kw@ == "import "@,
                start == old(self).imports@,
                self.imports@ == start + used_imports(views(lines@).take(i as int), code@),
                *self == (Python3_original {
                    imports: self.imports,
                    code: self.code,
                    ..*old(self)
                }),
            decreases lines@.len() - i,
        {
            let line = &lines[i];
            proof {
                assert(views(lines@)[i as int] == line@);
                assert(views(lines@).take(i + 1).drop_last() =~= views(lines@).take(i as int));
            }
            if contains_chars(line, &import_kw) && !first_non_ws_eq(line, '#') && module_used_exec(
                line,
                &code,
            ) {
                self.imports.append("\n");
                let l = string_of(line.as_slice());
                self.imports.append(l.as_str());
            }
            i += 1;
            proof {
                assert(self.imports@ =~= start + used_imports(views(lines@).take(i as int), code@));
            }
        }
        proof {
            assert(views(lines@).take(lines@.len() as int) =~= views(lines@));
        }
    }

    /// Sets the code from the inputs at the current level. At level `Import`
    /// and above, then adds the imports of the file that this code uses, when
    /// the file's text could be read (`file_contents`).
    pub fn fetch_code(&mut self, file_contents: Option<&str>) -> (r: Result<(), SniprunError>)
        ensures
            r is Ok,
            final(self).code@ == fetched_code(old(self).data, old(self).support_level),
            final(self).imports@ == fetched_imports(
                old(self).data,
                old(self).support_level,
                old(self).imports@,
                opt_view(file_contents),
            ),
            final(self).support_level == old(self).support_level,
            final(self).data == old(self).data,
            final(self).cache_dir == old(self).cache_dir,
            final(self).main_file_path == old(self).main_file_path,
            final(self).plugin_root == old(self).plugin_root,
    {
        let bloc = chars_of(self.data.current_bloc.as_str());
        let line = chars_of(self.data.current_line.as_str());
        if !blank(&bloc) && self.get_current_level().at_least(&SupportLevel::Bloc) {
            self.code = self.data.current_bloc.clone();
        } else if !spaces_only(&line) && self.get_current_level().at_least(&SupportLevel::Line) {
            self.code = self.data.current_line.clone();
        } else {
            self.code = String::new();
        }
        if let Some(c) = file_contents {
            self.fetch_imports(c);
        }
        Ok(())
    }

    /// Wraps each import line on its own, so that a missing module stops
    /// nothing else, and puts them before the code, which is moved back to
    /// column zero.
    pub fn add_boilerplate(&mut self) -> (r: Result<(), SniprunError>)
        ensures
            r is Ok,
            final(self).imports@ == guarded_imports(old(self).imports@),
            final(self).code@ == guarded_imports(old(self).imports@) + unindented(
                "\n"@ + old(self).code@,
            ),
            final(self).support_level == old(self).support_level,
            final(self).data == old(self).data,
            final(self).cache_dir == old(self).cache_dir,
            final(self).main_file_path == old(self).main_file_path,
            final(self).plugin_root == old(self).plugin_root,
    {
        self.imports = guard_imports(self.imports.as_str());
        let body = String::from_str("\n").concat(self.code.as_str());
        let unindented_code = unindent_text(body.as_str());
        self.code = self.imports.clone().concat(unindented_code.as_str());
        Ok(())
    }

    /// What the previous run saved for this interpreter: its content when this
    /// interpreter owns the record, nothing otherwise.
    pub fn read_previous_code(&self) -> (r: String)
        ensures
            r@ == previous_content(self.data.interpreter_data, python3_original_name()),
    {
        let name = Python3_original::get_name();
        if self.data.interpreter_data.owner == name {
            self.data.interpreter_data.content.clone()
        } else {
            String::new()
        }
    }

    /// Saves `content` for the next run, owned by this interpreter.
    pub fn save_code(&mut self, content: String)
        ensures
            final(self).data.interpreter_data.owner@ == python3_original_name(),
            final(self).data.interpreter_data.content@ == content@,
            final(self).data.interpreter_data.pid == old(self).data.interpreter_data.pid,
            final(self).data == (DataHolder {
                interpreter_data: final(self).data.interpreter_data,
                ..old(self).data
            }),
            final(self).code == old(self).code,
            final(self).imports == old(self).imports,
            final(self).support_level == old(self).support_level,
            final(self).cache_dir == old(self).cache_dir,
            final(self).main_file_path == old(self).main_file_path,
            final(self).plugin_root == old(self).plugin_root,
    {
        self.data.interpreter_data.owner = Python3_original::get_name();
        self.data.interpreter_data.content = content;
    }

    /// Builds the program of a REPL-like run around the code, with the imports
    /// each wrapped on its own and the helper functions `python_functions`
    /// that load and save variables. On the first
    /// run (nothing saved for this interpreter) the marker of a first run is
    /// saved and no load is made; on later runs the saved variables are loaded
    /// before the code. The variables are saved after it in either case.
    pub fn add_boilerplate_repl(&mut self, python_functions: &str) -> (r: Result<(), SniprunError>)
        ensures
            r is Ok,
            ({
                let first = previous_content(
                    old(self).data.interpreter_data,
                    python3_original_name(),
                ).len() == 0;
                &&& final(self).code@ == repl_program(
                    guarded_imports(old(self).imports@),
                    python_functions@,
                    old(self).cache_dir@,
                    old(self).code@,
                    first,
                )
                &&& store_after(
                    old(self).data.interpreter_data,
                    final(self).data.interpreter_data,
                    first,
                )
            }),
            final(self).data == (DataHolder {
                interpreter_data: final(self).data.interpreter_data,
                ..old(self).data
            }),
            final(self).imports@ == guarded_imports(old(self).imports@),
            final(self).support_level == old(self).support_level,
            final(self).cache_dir == old(self).cache_dir,
            final(self).main_file_path == old(self).main_file_path,
            final(self).plugin_root == old(self).plugin_root,
    {
        let previous = self.read_previous_code();
        let first_run = previous.as_str().is_empty();
        if first_run {
            self.save_code(String::from_str("Not the first run anymore"));
        }
        self.imports = guard_imports(self.imports.as_str());
        let body = String::from_str("\n").concat(self.code.as_str());
        let unindented_code = unindent_text(body.as_str());
        let final_code = build_repl_program(
            self.imports.as_str(),
            python_functions,
            self.cache_dir.as_str(),
            unindented_code.as_str(),
            first_run,
        );
        self.code = final_code;
        Ok(())
    }

    /// The outcome of running the built program, from its exit status and what
    /// it printed: its output verbatim on success, else a runtime error holding
    /// the last line of its error output that is not blank (all of it when
    /// every line is blank).
    pub fn execute(success: bool, stdout: String, stderr: String) -> (r: Result<
        String,
        SniprunError,
    >)
        ensures
            success ==> (r matches Ok(o) && o@ == stdout@),
            !success ==> (r matches Err(SniprunError::RuntimeError(m)) && m@ == runtime_message(
                stderr@,
            )),
    {
        if success {
            return Ok(stdout);
        }
        let text = chars_of(stderr.as_str());
        let lines = split_lines(&text);
        let mut i: usize = lines.len();
        proof {
            assert(views(lines@).take(i as int) =~= views(lines@));
        }
        while i > 0
            invariant
                !success,
                i <= lines@.len(),
                views(lines@) == lines_of(stderr@),
                last_non_blank(views(lines@)) == last_non_blank(views(lines@).take(i as int)),
            decreases i,
        {
            proof {
                assert(views(lines@).take(i as int).last() == lines@[i - 1]@);
                assert(views(lines@).take(i as int).drop_last() =~= views(lines@).take(i - 1));
            }
            if !blank(&lines[i - 1]) {
                let m = string_of(lines[i - 1].as_slice());
                return Err(SniprunError::RuntimeError(m));
            }
            i -= 1;
        }
        Err(SniprunError::RuntimeError(stderr))
    }

    /// Whether the inputs ask this interpreter to behave like a REPL.
    pub fn repl_wanted(&self) -> (r: bool)
        ensures
            r == repl_wanted(self.data),
    {
        let name = Python3_original::get_name();
        let enabled = contains_name(&self.data.repl_enabled, &name);
        let by_default = Python3_original::behave_repl_like_default() && !contains_name(
            &self.data.repl_disabled,
            &name,
        );
        Python3_original::has_repl_capability() && (enabled || by_default)
    }

    /// Runs the stages that need no outside process: fetches the code (and the
    /// imports it uses from `file_contents`, the file's text when it could be
    /// read), then adds the boilerplate, REPL-like with the helper functions
    /// `python_functions` when the inputs ask for it. What is left is to write
    /// `code` to `main_file_path` and run it.
    pub fn prepare(&mut self, file_contents: Option<&str>, python_functions: &str) -> (r: Result<
        (),
        SniprunError,
    >)
        ensures
            r is Ok,
            final(self).code@ == prepared_program(
                old(self).data,
                old(self).support_level,
                old(self).imports@,
                old(self).cache_dir@,
                opt_view(file_contents),
                python_functions@,
            ),
            store_after(
                old(self).data.interpreter_data,
                final(self).data.interpreter_data,
                repl_first_run(old(self).data),
            ),
            final(self).data == (DataHolder {
                interpreter_data: final(self).data.interpreter_data,
                ..old(self).data
            }),
            final(self).support_level == old(self).support_level,
            final(self).cache_dir == old(self).cache_dir,
            final(self).main_file_path == old(self).main_file_path,
            final(self).plugin_root == old(self).plugin_root,
    {
        let repl = self.repl_wanted();
        let _ = self.fetch_code(file_contents);
        if repl {
            let _ = self.add_boilerplate_repl(python_functions);
        } else {
            let _ = self.add_boilerplate();
        }
        Ok(())
    }

    /// Prepares a run at `level`.
    pub fn prepare_at_level(
        &mut self,
        level: SupportLevel,
        file_contents: Option<&str>,
        python_functions: &str,
    ) -> (r: Result<(), SniprunError>)
        ensures
            r is Ok,
            final(self).support_level == level,
            store_after(
                old(self).data.interpreter_data,
                final(self).data.interpreter_data,
                repl_first_run(old(self).data),
            ),
            final(self).data == (DataHolder {
                interpreter_data: final(self).data.interpreter_data,
                ..old(self).data
            }),
            final(self).code@ == prepared_program(
                old(self).data,
                level,
                old(self).imports@,
                old(self).cache_dir@,
                opt_view(file_contents),
                python_functions@,
            ),
            final(self).cache_dir == old(self).cache_dir,
            final(self).main_file_path == old(self).main_file_path,
            final(self).plugin_root == old(self).plugin_root,
    {
        self.set_current_level(level);
        self.prepare(file_contents, python_functions)
    }
}

} // verus!
