use vstd::prelude::*;
use vstd::string::*;
use crate::launcher::InterpreterInfo;
use crate::level::{SupportLevel, level_name};
use crate::text::push_char;

verus! {

/// `n` spaces.
pub open spec fn spaces(n: nat) -> Seq<char> {
    Seq::new(n, |i: int| ' ')
}

/// `s` followed by spaces up to width `w`.
pub open spec fn pad_right(s: Seq<char>, w: nat) -> Seq<char> {
    if s.len() < w {
        s + spaces((w - s.len()) as nat)
    } else {
        s
    }
}

/// `s` centred in width `w`; an odd space goes to the right.
pub open spec fn centered(s: Seq<char>, w: nat) -> Seq<char> {
    if s.len() < w {
        let p = (w - s.len()) as nat;
        spaces(p / 2) + s + spaces((p - p / 2) as nat)
    } else {
        s
    }
}

/// `yes` or `no`.
pub open spec fn yes_no(b: bool) -> Seq<char> {
    if b {
        "yes"@
    } else {
        "no"@
    }
}

/// The row of the interpreter table for an interpreter with these properties.
pub open spec fn table_row(
    name: Seq<char>,
    language: Seq<char>,
    level: SupportLevel,
    default: bool,
    repl: bool,
    repl_default: bool,
    treesitter: bool,
) -> Seq<char> {
    "| "@ + pad_right(name, 25) + "| "@ + pad_right(language, 13) + "| "@ + pad_right(
        level_name(level),
        14,
    ) + "|"@ + centered(yes_no(default), 13) + "|"@ + centered(yes_no(repl), 12) + "|"@
        + centered(yes_no(repl_default), 14) + "|"@ + centered(yes_no(treesitter), 12) + "|"@
}

/// The first language an interpreter supports, or nothing.
pub open spec fn first_language(info: InterpreterInfo) -> Seq<char> {
    if info.supported_languages@.len() > 0 {
        info.supported_languages@[0]@
    } else {
        Seq::empty()
    }
}

/// The row of the interpreter table for `info`.
pub open spec fn row_of(info: InterpreterInfo) -> Seq<char> {
    table_row(
        info.name@,
        first_language(info),
        info.max_support_level,
        info.default_for_filetype,
        info.has_repl_capability,
        info.behave_repl_like_default,
        info.has_treesitter_capability,
    )
}

fn push_spaces(s: &mut String, n: usize)
    ensures
        final(s)@ == old(s)@ + spaces(n as nat),
{
    let mut i: usize = 0;
    while i < n
        invariant
            i <= n,
            s@ == old(s)@ + spaces(i as nat),
        decreases n - i,
    {
        push_char(s, ' ');
        i += 1;
        assert(s@ =~= old(s)@ + spaces(i as nat));
    }
}

fn append_padded(s: &mut String, t: &str, w: usize)
    ensures
        final(s)@ == old(s)@ + pad_right(t@, w as nat),
{
    s.append(t);
    let n = t.unicode_len();
    if n < w {
        push_spaces(s, w - n);
    }
    assert(s@ =~= old(s)@ + pad_right(t@, w as nat));
}

fn append_centered(s: &mut String, t: &str, w: usize)
    ensures
        final(s)@ == old(s)@ + centered(t@, w as nat),
{
    let n = t.unicode_len();
    if n < w {
        let p = w - n;
        push_spaces(s, p / 2);
        s.append(t);
        push_spaces(s, p - p / 2);
    } else {
        s.append(t);
    }
    assert(s@ =~= old(s)@ + centered(t@, w as nat));
}

fn yes_no_str(b: bool) -> (r: &'static str)
    ensures
        r@ == yes_no(b),
{
    if b {
        "yes"
    } else {
        "no"
    }
}

/// The row of the interpreter table for `info`.
pub fn interpreter_row(info: &InterpreterInfo) -> (r: String)
    ensures
        r@ == row_of(*info),
{
    let mut s = String::from_str("| ");
    append_padded(&mut s, info.name.as_str(), 25);
    s.append("| ");
    if info.supported_languages.len() > 0 {
        append_padded(&mut s, info.supported_languages[0].as_str(), 13);
    } else {
        proof {
            reveal_strlit("");
            assert(""@ =~= first_language(*info));
        }
        append_padded(&mut s, "", 13);
    }
    s.append("| ");
    append_padded(&mut s, info.max_support_level.name(), 14);
    s.append("|");
    append_centered(&mut s, yes_no_str(info.default_for_filetype), 13);
    s.append("|");
    append_centered(&mut s, yes_no_str(info.has_repl_capability), 12);
    s.append("|");
    append_centered(&mut s, yes_no_str(info.behave_repl_like_default), 14);
    s.append("|");
    append_centered(&mut s, yes_no_str(info.has_treesitter_capability), 12);
    s.append("|");
    proof {
        assert(s@ =~= row_of(*info));
    }
    s
}

/// `a` comes before `b`, or equals it, in the order of character codes.
pub open spec fn lex_le(a: Seq<char>, b: Seq<char>) -> bool
    decreases a.len(),
{
    if a.len() == 0 {
        true
    } else if b.len() == 0 {
        false
    } else if (a[0] as u32) != (b[0] as u32) {
        (a[0] as u32) < (b[0] as u32)
    } else {
        lex_le(a.drop_first(), b.drop_first())
    }
}

/// `s` is in ascending order.
pub open spec fn is_sorted_text(s: Seq<Seq<char>>) -> bool {
    forall|i: int, j: int| 0 <= i < j < s.len() ==> lex_le(#[trigger] s[i], #[trigger] s[j])
}

/// The contents of a vector of strings.
pub open spec fn string_views(v: Seq<String>) -> Seq<Seq<char>> {
    v.map_values(|s: String| s@)
}

/// Relies on slice::sort: the same strings, in ascending order, which for
/// strings is the order of their character codes.
#[verifier::external_body]
fn sort_strings(v: &mut Vec<String>)
    ensures
        string_views(final(v)@).to_multiset() == string_views(old(v)@).to_multiset(),
        is_sorted_text(string_views(final(v)@)),
{
    v.sort()
}

/// The lines joined, a line feed between two of them.
pub open spec fn join_nl(lines: Seq<Seq<char>>) -> Seq<char>
    decreases lines.len(),
{
    if lines.len() == 0 {
        Seq::empty()
    } else if lines.len() == 1 {
        lines[0]
    } else {
        join_nl(lines.drop_last()) + "\n"@ + lines.last()
    }
}

/// The line between the parts of the table.
pub open spec fn separator() -> Seq<char> {
    "|--------------------------|--------------|---------------|-------------|------------|--------------|------------|"@
}

/// The first line of the table's head.
pub open spec fn header_top() -> Seq<char> {
    "| Interpreter              | Language     | Support Level | Default for |    REPL    | REPL enabled | Treesitter |"@
}

/// The second line of the table's head.
pub open spec fn header_bottom() -> Seq<char> {
    "|                          |              |               |  filetype   | capability |  by default  | capability |"@
}

/// The rows of the table, a separator before every third one, from the first.
pub open spec fn grouped(rows: Seq<Seq<char>>) -> Seq<Seq<char>>
    decreases rows.len(),
{
    if rows.len() == 0 {
        Seq::empty()
    } else {
        grouped(rows.drop_last()) + (if (rows.len() - 1) % 3 == 0 {
            seq![separator()]
        } else {
            Seq::empty()
        }) + seq![rows.last()]
    }
}

/// The lines of the information text: the banner (or the plain name), the
/// version status, the current selection, and the table of `rows`.
pub open spec fn info_lines(
    banner: Option<Seq<char>>,
    version: Option<Seq<char>>,
    selection: Option<(Seq<char>, SupportLevel)>,
    rows: Seq<Seq<char>>,
) -> Seq<Seq<char>> {
    info_head(banner, version, selection) + grouped(rows) + seq![separator()]
}

/// The text of `lines` joined by line feeds.
pub fn join_lines(lines: &Vec<String>) -> (r: String)
    ensures
        r@ == join_nl(string_views(lines@)),
{
    let mut r = String::new();
    let mut i: usize = 0;
    while i < lines.len()
        invariant
            i <= lines@.len(),
            r@ == join_nl(string_views(lines@).take(i as int)),
        decreases lines@.len() - i,
    {
        proof {
            assert(string_views(lines@).take(i + 1).drop_last() =~= string_views(lines@).take(
                i as int,
            ));
        }
        if i > 0 {
            r.append("\n");
        }
        r.append(lines[i].as_str());
        i += 1;
        proof {
            assert(r@ =~= join_nl(string_views(lines@).take(i as int)));
        }
    }
    proof {
        assert(string_views(lines@).take(lines@.len() as int) =~= string_views(lines@));
    }
    r
}

/// Appends `rows` to `v`, a separator before every third one.
fn push_grouped(v: &mut Vec<String>, rows: &Vec<String>)
    ensures
        string_views(final(v)@) == string_views(old(v)@) + grouped(string_views(rows@)),
{
    let mut i: usize = 0;
    while i < rows.len()
        invariant
            i <= rows@.len(),
            string_views(v@) == string_views(old(v)@) + grouped(string_views(rows@).take(i as int)),
        decreases rows@.len() - i,
    {
        proof {
            assert(string_views(rows@).take(i + 1).drop_last() =~= string_views(rows@).take(
                i as int,
            ));
        }
        let ghost t = string_views(rows@).take(i + 1);
        proof {
            assert(t.last() == rows@[i as int]@);
            assert(grouped(t) == grouped(t.drop_last()) + (if i % 3 == 0 {
                seq![separator()]
            } else {
                Seq::empty()
            }) + seq![rows@[i as int]@]);
        }
        if i % 3 == 0 {
            let sep = String::from_str("|--------------------------|--------------|---------------|-------------|------------|--------------|------------|");
            let ghost b = v@;
            v.push(sep);
            proof {
                assert(string_views(v@) =~= string_views(b).push(separator()));
            }
        }
        let ghost b2 = v@;
        v.push(rows[i].clone());
        proof {
            assert(string_views(v@) =~= string_views(b2).push(rows@[i as int]@));
            assert(string_views(v@) =~= string_views(old(v)@) + grouped(t));
        }
        i += 1;
    }
    proof {
        assert(string_views(rows@).take(rows@.len() as int) =~= string_views(rows@));
    }
}

fn push_line(v: &mut Vec<String>, s: String)
    ensures
        string_views(final(v)@) == string_views(old(v)@).push(s@),
{
    let ghost b = v@;
    v.push(s);
    proof {
        assert(string_views(v@) =~= string_views(b).push(s@));
    }
}

/// The lines of the information text before the table rows.
pub open spec fn info_head(
    banner: Option<Seq<char>>,
    version: Option<Seq<char>>,
    selection: Option<(Seq<char>, SupportLevel)>,
) -> Seq<Seq<char>> {
    (match banner {
        Some(b) => seq![b, "\n"@],
        None => seq!["SNIPRUN\n"@],
    }) + seq![
        match version {
            Some(t) => t,
            None => "Could not determine up-to-date status\n"@,
        },
        match selection {
            Some(p) => "\nCurrently selected interpreter: "@ + p.0 + ", at support level: "@
                + level_name(p.1) + "\n"@,
            None => "No interpreter selected\n"@,
        },
        separator(),
        header_top(),
        header_bottom(),
    ]
}

/// The rows of the interpreter table for `reg`, in its order.
pub open spec fn rows_of(reg: Seq<InterpreterInfo>) -> Seq<Seq<char>> {
    reg.map_values(|x: InterpreterInfo| row_of(x))
}

/// The information text for the interpreters `reg`, given the banner text and
/// the version status when they could be had, and the current selection: the
/// lines of `info_lines`, with the table rows in ascending order.
pub fn render_info(
    banner: Option<&str>,
    version: Option<&str>,
    selection: Option<(String, SupportLevel)>,
    reg: &Vec<InterpreterInfo>,
) -> (r: String)
    ensures
        exists|rows: Seq<Seq<char>>|
            is_sorted_text(rows) && rows.to_multiset() == rows_of(reg@).to_multiset() && r@ == join_nl(
                info_lines(
                    match banner {
                        Some(b) => Some(b@),
                        None => None,
                    },
                    match version {
                        Some(t) => Some(t@),
                        None => None,
                    },
                    match selection {
                        Some(p) => Some((p.0@, p.1)),
                        None => None,
                    },
                    rows,
                ),
            ),
{
    let mut v: Vec<String> = Vec::new();
    match banner {
        Some(b) => {
            push_line(&mut v, String::from_str(b));
            push_line(&mut v, String::from_str("\n"));
        },
        None => {
            push_line(&mut v, String::from_str("SNIPRUN\n"));
        },
    }
    match version {
        Some(t) => push_line(&mut v, String::from_str(t)),
        None => push_line(&mut v, String::from_str("Could not determine up-to-date status\n")),
    }
    match &selection {
        Some((name, level)) => {
            let line = String::from_str("\nCurrently selected interpreter: ").concat(
                name.as_str(),
            ).concat(", at support level: ").concat(level.name()).concat("\n");
            push_line(&mut v, line);
        },
        None => push_line(&mut v, String::from_str("No interpreter selected\n")),
    }
    push_line(&mut v, String::from_str("|--------------------------|--------------|---------------|-------------|------------|--------------|------------|"));
    push_line(&mut v, String::from_str("| Interpreter              | Language     | Support Level | Default for |    REPL    | REPL enabled | Treesitter |"));
    push_line(&mut v, String::from_str("|                          |              |               |  filetype   | capability |  by default  | capability |"));
    let ghost bv = match banner {
        Some(b) => Some(b@),
        None => None,
    };
    let ghost vv = match version {
        Some(t) => Some(t@),
        None => None,
    };
    let ghost sv = match selection {
        Some(p) => Some((p.0@, p.1)),
        None => None,
    };
    proof {
        assert(string_views(v@) =~= info_head(bv, vv, sv));
    }
    let ghost head = v@;
    let mut rows: Vec<String> = Vec::new();
    let mut i: usize = 0;
    while i < reg.len()
        invariant
            i <= reg@.len(),
            string_views(rows@) == rows_of(reg@.take(i as int)),
            v@ == head,
        decreases reg@.len() - i,
    {
        let row = interpreter_row(&reg[i]);
        let ghost old_rows = rows@;
        rows.push(row);
        proof {
            assert(string_views(rows@) =~= string_views(old_rows).push(row@));
            assert(rows_of(reg@.take(i + 1)) =~= rows_of(reg@.take(i as int)).push(row_of(reg@[i as int])));
        }
        i += 1;
    }
    proof {
        assert(reg@.take(reg@.len() as int) =~= reg@);
    }
    sort_strings(&mut rows);
    push_grouped(&mut v, &rows);
    push_line(&mut v, String::from_str("|--------------------------|--------------|---------------|-------------|------------|--------------|------------|"));
    let r = join_lines(&v);
    proof {
        assert(string_views(v@) =~= info_lines(bv, vv, sv, string_views(rows@)));
    }
    r
}

} // verus!
