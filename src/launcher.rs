use vstd::prelude::*;
use crate::data::DataHolder;
use crate::error::SniprunError;
use crate::python3_original::{
    Python3_original, opt_view, prepared_program, python3_original_name, repl_first_run, store_after,
};
use crate::level::{SupportLevel, rank};
use crate::text::{contains_name, names_contain};
use crate::info::{info_lines, join_nl, render_info, rows_of, table_row, is_sorted_text};

verus! {

/// What an interpreter declares about itself, as seen by the selector.
pub struct InterpreterInfo {
    pub name: String,
    pub supported_languages: Vec<String>,
    pub max_support_level: SupportLevel,
    pub default_for_filetype: bool,
    pub has_repl_capability: bool,
    pub behave_repl_like_default: bool,
    pub has_treesitter_capability: bool,
}

/// The interpreter runs code of filetype `ft`.
pub open spec fn supports(info: InterpreterInfo, ft: Seq<char>) -> bool {
    names_contain(info.supported_languages@, ft)
}

/// The selector's state after it considered the first `n` interpreters of
/// `reg`: the best name so far, its level, and whether the scan has stopped.
pub open spec fn pick(reg: Seq<InterpreterInfo>, ft: Seq<char>, sel: Seq<String>, n: nat) -> (
    Seq<char>,
    SupportLevel,
    bool,
)
    decreases n,
{
    if n == 0 || n > reg.len() {
        ("Generic"@, SupportLevel::Unsupported, false)
    } else {
        let prev = pick(reg, ft, sel, (n - 1) as nat);
        let info = reg[n - 1];
        if prev.2 || !supports(info, ft) {
            prev
        } else if names_contain(sel, info.name@) {
            (info.name@, SupportLevel::Selected, true)
        } else if info.default_for_filetype {
            (info.name@, info.max_support_level, true)
        } else if rank(info.max_support_level) > rank(prev.1) {
            (info.name@, info.max_support_level, false)
        } else {
            prev
        }
    }
}

/// The selection for filetype `ft` among `reg` with the user's choices `sel`:
/// nothing without a filetype, else the name and level the scan ends with.
pub open spec fn selection(reg: Seq<InterpreterInfo>, ft: Seq<char>, sel: Seq<String>) -> Option<
    (Seq<char>, SupportLevel),
> {
    if ft.len() == 0 {
        None
    } else {
        let p = pick(reg, ft, sel, reg.len());
        Some((p.0, p.1))
    }
}

/// Chooses one interpreter of `reg` for `filetype`.
///
/// Scanning in order the interpreters that support the filetype, one the user
/// selected wins at level `Selected` and ends the scan; else a declared default
/// wins at its own maximum level and ends the scan; else the most capable one
/// seen so far is kept. Without any match the result is `Generic` at
/// `Unsupported`; without a filetype it is `None`.
pub fn select_from(reg: &Vec<InterpreterInfo>, filetype: &String, selected: &Vec<String>) -> (r:
    Option<(String, SupportLevel)>)
    ensures
        r matches Some(p) ==> selection(reg@, filetype@, selected@) == Some((p.0@, p.1)),
        r is None <==> selection(reg@, filetype@, selected@) is None,
{
    if filetype.as_str().is_empty() {
        return None;
    }
    let mut best_level = SupportLevel::Unsupported;
    let mut best_name = String::from_str("Generic");
    let mut i: usize = 0;
    while i < reg.len()
        invariant
            i <= reg@.len(),
            filetype@.len() > 0,
            pick(reg@, filetype@, selected@, i as nat) == (best_name@, best_level, false),
        decreases reg@.len() - i,
    {
        let info = &reg[i];
        proof {
            assert(info == reg@[i as int]);
        }
        if contains_name(&info.supported_languages, filetype) {
            if contains_name(selected, &info.name) {
                let name = info.name.clone();
                proof {
                    assert(pick(reg@, filetype@, selected@, (i + 1) as nat).2);
                    lemma_pick_stopped(reg@, filetype@, selected@, (i + 1) as nat);
                }
                return Some((name, SupportLevel::Selected));
            } else if info.default_for_filetype {
                let name = info.name.clone();
                proof {
                    assert(pick(reg@, filetype@, selected@, (i + 1) as nat).2);
                    lemma_pick_stopped(reg@, filetype@, selected@, (i + 1) as nat);
                }
                return Some((name, info.max_support_level));
            } else if info.max_support_level.rank() > best_level.rank() {
                best_level = info.max_support_level;
                best_name = info.name.clone();
            }
        }
        i += 1;
    }
    Some((best_name, best_level))
}

/// Once the scan has stopped, later interpreters change nothing.
proof fn lemma_pick_stopped(reg: Seq<InterpreterInfo>, ft: Seq<char>, sel: Seq<String>, n: nat)
    requires
        n <= reg.len(),
        pick(reg, ft, sel, n).2,
    ensures
        pick(reg, ft, sel, reg.len()) == pick(reg, ft, sel, n),
    decreases reg.len() - n,
{
    if n < reg.len() {
        lemma_pick_stopped(reg, ft, sel, n + 1);
    }
}

/// `ft` is a filetype the Python 3 interpreter runs.
pub open spec fn is_python_filetype(ft: Seq<char>) -> bool {
    ft == "Python 3"@ || ft == "python"@ || ft == "python3"@ || ft == "py"@
}

/// The interpreters known to the library, in the order the selector scans them.
pub fn registry() -> (r: Vec<InterpreterInfo>)
    ensures
        r@.len() == 1,
        r@[0].name@ == python3_original_name(),
        r@[0].supported_languages@.len() == 4,
        r@[0].supported_languages@[0]@ == "Python 3"@,
        forall|ft: Seq<char>| supports(r@[0], ft) <==> is_python_filetype(ft),
        r@[0].max_support_level == SupportLevel::Import,
        r@[0].default_for_filetype,
        r@[0].has_repl_capability,
        !r@[0].behave_repl_like_default,
        !r@[0].has_treesitter_capability,
{
    let info = InterpreterInfo {
        name: Python3_original::get_name(),
        supported_languages: Python3_original::get_supported_languages(),
        max_support_level: Python3_original::get_max_support_level(),
        default_for_filetype: Python3_original::default_for_filetype(),
        has_repl_capability: Python3_original::has_repl_capability(),
        behave_repl_like_default: Python3_original::behave_repl_like_default(),
        has_treesitter_capability: Python3_original::has_treesitter_capability(),
    };
    proof {
        assert forall|ft: Seq<char>| supports(info, ft) <==> is_python_filetype(ft) by {
            if is_python_filetype(ft) {
                if ft == "Python 3"@ {
                    assert(info.supported_languages@[0]@ == ft);
                } else if ft == "python"@ {
                    assert(info.supported_languages@[1]@ == ft);
                } else if ft == "python3"@ {
                    assert(info.supported_languages@[2]@ == ft);
                } else {
                    assert(info.supported_languages@[3]@ == ft);
                }
            }
        }
    }
    let mut r: Vec<InterpreterInfo> = Vec::new();
    r.push(info);
    r
}

/// The selection the library makes for `data`: none without a filetype; the
/// Python 3 interpreter for its filetypes, at level `Selected` when the user
/// selected it and at `Import` otherwise; else the `Generic` placeholder at
/// `Unsupported`.
pub open spec fn library_selection(data: DataHolder) -> Option<(Seq<char>, SupportLevel)> {
    if data.filetype@.len() == 0 {
        None
    } else if is_python_filetype(data.filetype@) {
        if names_contain(data.selected_interpreters@, python3_original_name()) {
            Some((python3_original_name(), SupportLevel::Selected))
        } else {
            Some((python3_original_name(), SupportLevel::Import))
        }
    } else {
        Some(("Generic"@, SupportLevel::Unsupported))
    }
}

/// The row of the interpreter table for the Python 3 interpreter.
pub open spec fn python3_original_row() -> Seq<char> {
    table_row(python3_original_name(), "Python 3"@, SupportLevel::Import, true, true, false, false)
}

/// Picks an interpreter for its inputs and prepares the run.
pub struct Launcher {
    pub data: DataHolder,
}

impl Launcher {
    pub fn new(data: DataHolder) -> (r: Launcher)
        ensures
            r.data == data,
    {
        Launcher { data }
    }

    /// The interpreter and level for this run, as `select_from` chooses them
    /// among the registry.
    pub fn select(&self) -> (r: Option<(String, SupportLevel)>)
        ensures
            r is None <==> library_selection(self.data) is None,
            r matches Some(p) ==> library_selection(self.data) == Some((p.0@, p.1)),
    {
        let reg = registry();
        let r = select_from(&reg, &self.data.filetype, &self.data.selected_interpreters);
        proof {
            assert(pick(reg@, self.data.filetype@, self.data.selected_interpreters@, 0) == (
                "Generic"@,
                SupportLevel::Unsupported,
                false,
            ));
        }
        r
    }

    /// The information text: the banner and the version status when they
    /// could be had, the current selection, and the table of the registry's
    /// interpreters.
    pub fn info(&self, banner: Option<&str>, version: Option<&str>) -> (r: String)
        ensures
            r@ == join_nl(
                info_lines(
                    match banner {
                        Some(b) => Some(b@),
                        None => None,
                    },
                    match version {
                        Some(t) => Some(t@),
                        None => None,
                    },
                    library_selection(self.data),
                    seq![python3_original_row()],
                ),
            ),
    {
        let reg = registry();
        let selection = self.select();
        let ghost sv = match &selection {
            Some(p) => Some((p.0@, p.1)),
            None => None,
        };
        proof {
            assert(sv == library_selection(self.data));
        }
        let r = render_info(banner, version, selection, &reg);
        proof {
            let x = python3_original_row();
            assert(rows_of(reg@) =~= seq![x]);
            let rows = choose|rows: Seq<Seq<char>>|
                is_sorted_text(rows) && rows.to_multiset() == rows_of(reg@).to_multiset() && r@
                    == join_nl(
                    info_lines(
                        match banner {
                            Some(b) => Some(b@),
                            None => None,
                        },
                        match version {
                            Some(t) => Some(t@),
                            None => None,
                        },
                        sv,
                        rows,
                    ),
                );
            let one = seq![x];
            vstd::seq_lib::to_multiset_len(rows);
            vstd::seq_lib::to_multiset_len(one);
            assert(rows.len() == 1);
            assert(one.contains(x)) by {
                assert(one[0] == x);
            }
            vstd::seq_lib::to_multiset_contains(one, x);
            vstd::seq_lib::to_multiset_contains(rows, x);
            assert(rows.contains(x));
            assert(rows =~= seq![x]);
        }
        r
    }

    /// Selects the interpreter and prepares its run: fetches the code (with
    /// the imports of `file_contents`, the text of the edited file when it
    /// could be read) and adds the boilerplate (REPL-like with the helper
    /// functions `python_functions` when asked). Fails without a filetype, and
    /// when no interpreter of the registry runs the filetype.
    pub fn select_and_run(self, file_contents: Option<&str>, python_functions: &str) -> (r: Result<
        Python3_original,
        SniprunError,
    >)
        ensures
            self.data.filetype@.len() == 0 ==> (r matches Err(SniprunError::CustomError(m)) && m@
                == "No filetype set for current file"@),
            self.data.filetype@.len() > 0 && !is_python_filetype(self.data.filetype@) ==> (r matches Err(
                SniprunError::CustomError(m),
            ) && m@ == "could not find/run the selected interpreter"@),
            self.data.filetype@.len() > 0 && is_python_filetype(self.data.filetype@) ==> (r matches Ok(p)
                && library_selection(self.data) matches Some(s) && p.support_level == s.1
                && p.code@ == prepared_program(
                self.data,
                s.1,
                Seq::empty(),
                self.data.work_dir@ + "/python3_original"@,
                opt_view(file_contents),
                python_functions@,
            ) && p.cache_dir@ == self.data.work_dir@ + "/python3_original"@ && p.main_file_path@
                == self.data.work_dir@ + "/python3_original"@ + "/main.py"@ && p.plugin_root@
                == self.data.sniprun_root_dir@ && store_after(
                self.data.interpreter_data,
                p.data.interpreter_data,
                repl_first_run(self.data),
            ) && p.data == (DataHolder { interpreter_data: p.data.interpreter_data, ..self.data })),
    {
        proof {
            reveal_strlit("Generic");
            reveal_strlit("Python3_original");
        }
        let selection = self.select();
        match selection {
            None => Err(SniprunError::CustomError(String::from_str("No filetype set for current file"))),
            Some((name, level)) => {
                let python = Python3_original::get_name();
                if name == python {
                    assert(is_python_filetype(self.data.filetype@)) by {
                        if !is_python_filetype(self.data.filetype@) {
                            assert("Generic"@[0] != python3_original_name()[0]);
                        }
                    }
                    let mut inter = Python3_original::new_with_level(self.data, level);
                    let _ = inter.prepare(file_contents, python_functions);
                    Ok(inter)
                } else {
                    Err(
                        SniprunError::CustomError(
                            String::from_str("could not find/run the selected interpreter"),
                        ),
                    )
                }
            },
        }
    }
}

/// While no interpreter supporting the filetype has been selected or is a
/// declared default, the scan goes on.
proof fn lemma_pick_running(reg: Seq<InterpreterInfo>, ft: Seq<char>, sel: Seq<String>, n: nat)
    requires
        n <= reg.len(),
        forall|j: int|
            0 <= j < n && supports(#[trigger] reg[j], ft) ==> !names_contain(sel, reg[j].name@)
                && !reg[j].default_for_filetype,
    ensures
        !pick(reg, ft, sel, n).2,
    decreases n,
{
    if n > 0 {
        lemma_pick_running(reg, ft, sel, (n - 1) as nat);
    }
}

/// Without a filetype no interpreter is selected.
pub proof fn lemma_no_filetype_no_selection(reg: Seq<InterpreterInfo>, sel: Seq<String>)
    ensures
        selection(reg, Seq::empty(), sel) is None,
{
}

/// With no explicit selection, the first declared default for the filetype is
/// chosen at its own maximum level, whatever the levels of the other
/// interpreters that support the filetype.
pub proof fn lemma_default_beats_capability(
    reg: Seq<InterpreterInfo>,
    ft: Seq<char>,
    sel: Seq<String>,
    a: int,
)
    requires
        ft.len() > 0,
        sel.len() == 0,
        0 <= a < reg.len(),
        supports(reg[a], ft),
        reg[a].default_for_filetype,
        forall|j: int| 0 <= j < a && supports(#[trigger] reg[j], ft) ==> !reg[j].default_for_filetype,
    ensures
        selection(reg, ft, sel) == Some((reg[a].name@, reg[a].max_support_level)),
{
    lemma_pick_running(reg, ft, sel, a as nat);
    assert(!names_contain(sel, reg[a].name@));
    assert(pick(reg, ft, sel, (a + 1) as nat).2);
    lemma_pick_stopped(reg, ft, sel, (a + 1) as nat);
}

/// An interpreter the user selected that supports the filetype is chosen, at
/// level `Selected`, whatever the capability of the others, unless the scan
/// already stopped before it on another selected interpreter or a declared
/// default.
pub proof fn lemma_selected_wins(reg: Seq<InterpreterInfo>, ft: Seq<char>, sel: Seq<String>, a: int)
    requires
        ft.len() > 0,
        0 <= a < reg.len(),
        supports(reg[a], ft),
        names_contain(sel, reg[a].name@),
        forall|j: int|
            0 <= j < a && supports(#[trigger] reg[j], ft) ==> !names_contain(sel, reg[j].name@)
                && !reg[j].default_for_filetype,
    ensures
        selection(reg, ft, sel) == Some((reg[a].name@, SupportLevel::Selected)),
{
    lemma_pick_running(reg, ft, sel, a as nat);
    assert(pick(reg, ft, sel, (a + 1) as nat).2);
    lemma_pick_stopped(reg, ft, sel, (a + 1) as nat);
}

} // verus!
