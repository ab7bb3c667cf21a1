use vstd::prelude::*;
use crate::text::{contains, contains_char, contains_chars, occurs_at};

verus! {

/// Characters that separate the names of an import line.
pub open spec fn is_sep(c: char) -> bool {
    c == ' ' || c == ',' || c == '\t' || c == '\r'
}

fn sep(c: char) -> (r: bool)
    ensures
        r == is_sep(c),
{
    c == ' ' || c == ',' || c == '\t' || c == '\r'
}

/// `line[a..b]` is a word: a maximal run of characters that are no separators.
pub open spec fn is_word(line: Seq<char>, a: int, b: int) -> bool {
    &&& 0 <= a < b <= line.len()
    &&& forall|i: int| a <= i < b ==> !is_sep(#[trigger] line[i])
    &&& a == 0 || is_sep(line[a - 1])
    &&& b == line.len() || is_sep(line[b])
}

/// The words `from` and `import`, which name no module.
pub open spec fn is_keyword(w: Seq<char>) -> bool {
    w == "from"@ || w == "import"@
}

/// Some word of `line` other than a keyword occurs in `code`.
pub open spec fn some_name_used(line: Seq<char>, code: Seq<char>) -> bool {
    exists|a: int, b: int|
        #[trigger] is_word(line, a, b) && !is_keyword(line.subrange(a, b)) && contains(
            code,
            line.subrange(a, b),
        )
}

/// The last word of `line` occurs in `code`.
pub open spec fn last_name_used(line: Seq<char>, code: Seq<char>) -> bool {
    exists|a: int, b: int|
        #[trigger] is_word(line, a, b) && (forall|i: int| b <= i < line.len() ==> is_sep(line[i]))
            && contains(code, line.subrange(a, b))
}

/// Whether the import line `line` is of use to `code`: a wildcard import
/// always is; an aliasing import when its alias occurs in the code; any other
/// when one of the names it mentions occurs in the code.
pub open spec fn module_used(line: Seq<char>, code: Seq<char>) -> bool {
    if contains(line, seq!['*']) {
        true
    } else if contains(line, " as "@) {
        last_name_used(line, code)
    } else {
        some_name_used(line, code)
    }
}

fn is_keyword_exec(w: &Vec<char>) -> (r: bool)
    ensures
        r == is_keyword(w@),
{
    let from = vec!['f', 'r', 'o', 'm'];
    let import = vec!['i', 'm', 'p', 'o', 'r', 't'];
    proof {
        reveal_strlit("from");
        reveal_strlit("import");
    }
    let r = (w.len() == 4 && contains_chars(w, &from)) || (w.len() == 6 && contains_chars(
        w,
        &import,
    ));
    proof {
        if w@.len() == 4 && contains(w@, from@) {
            let i = choose|i: int| occurs_at(w@, from@, i);
            assert(w@.subrange(i, i + 4) =~= w@);
            assert(from@ =~= "from"@);
        }
        if w@.len() == 6 && contains(w@, import@) {
            let i = choose|i: int| occurs_at(w@, import@, i);
            assert(w@.subrange(i, i + 6) =~= w@);
            assert(import@ =~= "import"@);
        }
        if w@ == "from"@ {
            assert(w@.subrange(0, 4) =~= from@);
            assert(occurs_at(w@, from@, 0));
        }
        if w@ == "import"@ {
            assert(w@.subrange(0, 6) =~= import@);
            assert(occurs_at(w@, import@, 0));
        }
    }
    r
}

fn copy_range(s: &Vec<char>, a: usize, b: usize) -> (r: Vec<char>)
    requires
        a <= b <= s@.len(),
    ensures
        r@ == s@.subrange(a as int, b as int),
{
    let mut r: Vec<char> = Vec::new();
    let mut i: usize = a;
    while i < b
        invariant
            a <= i <= b <= s@.len(),
            r@ == s@.subrange(a as int, i as int),
        decreases b - i,
    {
        r.push(s[i]);
        i += 1;
        assert(r@ =~= s@.subrange(a as int, i as int));
    }
    r
}

/// Two words that overlap are the same word.
proof fn lemma_word_unique(line: Seq<char>, a: int, b: int, a2: int, b2: int)
    requires
        is_word(line, a, b),
        is_word(line, a2, b2),
        a <= a2 < b,
    ensures
        a2 == a && b2 == b,
{
    if a2 > a {
        assert(!is_sep(line[a2 - 1]));
    }
    if b2 < b {
        assert(!is_sep(line[b2]));
    } else if b2 > b {
        assert(!is_sep(line[b]));
    }
}

/// Whether some word of `line` other than a keyword occurs in `code`.
fn some_name_used_exec(line: &Vec<char>, code: &Vec<char>) -> (r: bool)
    ensures
        r == some_name_used(line@, code@),
{
    let n = line.len();
    let mut i: usize = 0;
    while i < n
        invariant
            n == line@.len(),
            i <= n,
            i == 0 || is_sep(line@[i - 1]) || i == n || is_sep(line@[i as int]),
            forall|a: int, b: int|
                #[trigger] is_word(line@, a, b) && a < i ==> is_keyword(line@.subrange(a, b))
                    || !contains(code@, line@.subrange(a, b)),
        decreases n - i,
    {
        if sep(line[i]) {
            proof {
                assert forall|a: int, b: int| #[trigger]
                    is_word(line@, a, b) && a < i + 1 implies is_keyword(line@.subrange(a, b))
                    || !contains(code@, line@.subrange(a, b)) by {
                    if a == i {
                        assert(!is_sep(line@[a]));
                    }
                }
            }
            i += 1;
        } else {
            let a = i;
            while i < n && !sep(line[i])
                invariant
                    n == line@.len(),
                    a <= i <= n,
                    forall|k: int| a <= k < i ==> !is_sep(#[trigger] line@[k]),
                decreases n - i,
            {
                i += 1;
            }
            proof {
                assert(a == 0 || is_sep(line@[a - 1]));
                assert(is_word(line@, a as int, i as int));
            }
            let w = copy_range(line, a, i);
            if !is_keyword_exec(&w) && contains_chars(code, &w) {
                assert(is_word(line@, a as int, i as int));
                return true;
            }
            proof {
                assert forall|a2: int, b2: int| #[trigger]
                    is_word(line@, a2, b2) && a2 < i implies is_keyword(line@.subrange(a2, b2))
                    || !contains(code@, line@.subrange(a2, b2)) by {
                    if a2 >= a {
                        lemma_word_unique(line@, a as int, i as int, a2, b2);
                    }
                }
            }
        }
    }
    false
}

/// Whether the last word of `line` occurs in `code`.
fn last_name_used_exec(line: &Vec<char>, code: &Vec<char>) -> (r: bool)
    ensures
        r == last_name_used(line@, code@),
{
    let mut b: usize = line.len();
    while b > 0 && sep(line[b - 1])
        invariant
            b <= line@.len(),
            forall|k: int| b <= k < line@.len() ==> is_sep(#[trigger] line@[k]),
        decreases b,
    {
        b -= 1;
    }
    if b == 0 {
        proof {
            assert forall|a2: int, b2: int| #[trigger] is_word(line@, a2, b2) implies !(forall|
                i: int,
            | b2 <= i < line@.len() ==> is_sep(line@[i])) || !contains(
                code@,
                line@.subrange(a2, b2),
            ) by {
                assert(is_sep(line@[a2]));
            }
        }
        return false;
    }
    let mut a: usize = b - 1;
    while a > 0 && !sep(line[a - 1])
        invariant
            0 <= a < b <= line@.len(),
            forall|k: int| a <= k < b ==> !is_sep(#[trigger] line@[k]),
        decreases a,
    {
        a -= 1;
    }
    proof {
        assert(is_word(line@, a as int, b as int));
    }
    let w = copy_range(line, a, b);
    let r = contains_chars(code, &w);
    proof {
        if !r {
            assert forall|a2: int, b2: int| #[trigger] is_word(line@, a2, b2) implies !(forall|
                i: int,
            | b2 <= i < line@.len() ==> is_sep(line@[i])) || !contains(
                code@,
                line@.subrange(a2, b2),
            ) by {
                if forall|i: int| b2 <= i < line@.len() ==> is_sep(line@[i]) {
                    if b2 < b {
                        assert(is_sep(line@[b - 1]));
                    } else if b2 > b {
                        assert(is_sep(line@[b2 - 1]));
                    }
                    if a2 < a {
                        lemma_word_unique(line@, a2, b2, a as int, b as int);
                    } else {
                        lemma_word_unique(line@, a as int, b as int, a2, b2);
                    }
                }
            }
        }
    }
    r
}

/// Whether the import line `line` is of use to `code`.
pub fn module_used_exec(line: &Vec<char>, code: &Vec<char>) -> (r: bool)
    ensures
        r == module_used(line@, code@),
{
    if contains_char(line, '*') {
        return true;
    }
    let as_word = vec![' ', 'a', 's', ' '];
    proof {
        reveal_strlit(" as ");
        assert(as_word@ =~= " as "@);
    }
    if contains_chars(line, &as_word) {
        last_name_used_exec(line, code)
    } else {
        some_name_used_exec(line, code)
    }
}

} // verus!
