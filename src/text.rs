use vstd::prelude::*;
use vstd::string::*;

verus! {

/// The characters of `s`, one element each.
pub fn chars_of(s: &str) -> (r: Vec<char>)
    ensures
        r@ == s@,
{
    let mut r: Vec<char> = Vec::new();
    for c in it: s.chars()
        invariant
            r@.len() == it.index(),
            it.seq() == s@,
            forall|i: int| 0 <= i < r@.len() ==> r@[i] == it.seq()[i],
    {
        r.push(c);
    }
    assert(r@ =~= s@);
    r
}

} // verus!

verus! {

/// Some element of `v` reads `s`.
pub open spec fn names_contain(v: Seq<String>, s: Seq<char>) -> bool {
    exists|i: int| 0 <= i < v.len() && #[trigger] v[i]@ == s
}

/// Whether some element of `v` equals `s`.
pub fn contains_name(v: &Vec<String>, s: &String) -> (r: bool)
    ensures
        r == names_contain(v@, s@),
{
    let mut i: usize = 0;
    while i < v.len()
        invariant
            i <= v@.len(),
            forall|j: int| 0 <= j < i ==> #[trigger] v@[j]@ != s@,
        decreases v@.len() - i,
    {
        if v[i] == *s {
            assert(v@[i as int]@ == s@);
            return true;
        }
        i += 1;
    }
    false
}

} // verus!

verus! {

/// Index of the first line feed in `s`, or its length when there is none.
pub open spec fn first_nl(s: Seq<char>) -> nat
    decreases s.len(),
{
    if s.len() == 0 {
        0
    } else if s[0] == '\n' {
        0
    } else {
        1 + first_nl(s.drop_first())
    }
}

/// `l` without one trailing carriage return.
pub open spec fn strip_cr(l: Seq<char>) -> Seq<char> {
    if l.len() > 0 && l.last() == '\r' {
        l.drop_last()
    } else {
        l
    }
}

/// The lines of `s`: split at each line feed, a final line feed ending the
/// last line rather than starting an empty one, and a carriage return before
/// a line feed dropped.
pub open spec fn lines_of(s: Seq<char>) -> Seq<Seq<char>>
    decreases s.len(),
{
    if s.len() == 0 {
        Seq::empty()
    } else {
        let k = first_nl(s);
        if k >= s.len() {
            seq![strip_cr(s)]
        } else {
            seq![strip_cr(s.take(k as int))] + lines_of(s.skip((k + 1) as int))
        }
    }
}

/// The contents of a vector of character vectors.
pub open spec fn views(v: Seq<Vec<char>>) -> Seq<Seq<char>> {
    v.map_values(|l: Vec<char>| l@)
}

proof fn lemma_first_nl(t: Seq<char>, k: int)
    requires
        0 <= k <= t.len(),
        forall|i: int| 0 <= i < k ==> t[i] != '\n',
        k == t.len() || t[k] == '\n',
    ensures
        first_nl(t) == k,
    decreases k,
{
    if k > 0 {
        lemma_first_nl(t.drop_first(), k - 1);
    }
}

/// Relies on String::push: appends one character.
#[verifier::external_body]
pub(crate) fn push_char(s: &mut String, c: char)
    ensures
        final(s)@ == old(s)@.push(c),
{
    s.push(c)
}

/// A string holding the characters of `v`.
pub fn string_of(v: &[char]) -> (r: String)
    ensures
        r@ == v@,
{
    let mut r = String::new();
    let mut i: usize = 0;
    while i < v.len()
        invariant
            i <= v@.len(),
            r@ == v@.take(i as int),
        decreases v@.len() - i,
    {
        push_char(&mut r, v[i]);
        i += 1;
        assert(r@ =~= v@.take(i as int));
    }
    assert(v@.take(v@.len() as int) =~= v@);
    r
}

/// The characters of `s` from `a` up to `b`, without a trailing carriage return.
fn line_between(s: &Vec<char>, a: usize, b: usize) -> (r: Vec<char>)
    requires
        a <= b <= s@.len(),
    ensures
        r@ == strip_cr(s@.subrange(a as int, b as int)),
{
    let mut end = b;
    if a < b && s[b - 1] == '\r' {
        end = b - 1;
    }
    let mut r: Vec<char> = Vec::new();
    let mut i: usize = a;
    while i < end
        invariant
            a <= i <= end <= b <= s@.len(),
            r@ == s@.subrange(a as int, i as int),
        decreases end - i,
    {
        r.push(s[i]);
        i += 1;
        assert(r@ =~= s@.subrange(a as int, i as int));
    }
    assert(r@ =~= strip_cr(s@.subrange(a as int, b as int)));
    r
}

/// The lines of `s`, as `lines_of` gives them.
pub fn split_lines(s: &Vec<char>) -> (r: Vec<Vec<char>>)
    ensures
        views(r@) == lines_of(s@),
{
    let mut r: Vec<Vec<char>> = Vec::new();
    let mut pos: usize = 0;
    proof {
        assert(s@.skip(0) =~= s@);
        assert(views(r@) + lines_of(s@.skip(0)) =~= lines_of(s@));
    }
    while pos < s.len()
        invariant
            pos <= s@.len(),
            views(r@) + lines_of(s@.skip(pos as int)) == lines_of(s@),
        decreases s@.len() - pos,
    {
        let mut k: usize = pos;
        while k < s.len() && s[k] != '\n'
            invariant
                pos <= k <= s@.len(),
                forall|i: int| pos <= i < k ==> s@[i] != '\n',
            decreases s@.len() - k,
        {
            k += 1;
        }
        let ghost t = s@.skip(pos as int);
        proof {
            lemma_first_nl(t, k - pos);
        }
        let line = line_between(s, pos, k);
        let ghost old_r = r@;
        r.push(line);
        proof {
            assert(views(r@) =~= views(old_r).push(line@));
            if k < s.len() {
                assert(t.take(k - pos) =~= s@.subrange(pos as int, k as int));
                assert(t.skip(k - pos + 1) =~= s@.skip(k + 1));
                assert(lines_of(t) == seq![line@] + lines_of(s@.skip(k + 1)));
                assert(views(r@) + lines_of(s@.skip(k + 1)) =~= views(old_r) + lines_of(t));
            } else {
                assert(t =~= s@.subrange(pos as int, k as int));
                assert(lines_of(t) == seq![line@]);
                assert(s@.skip(k as int).len() == 0);
                assert(views(r@) + lines_of(s@.skip(k as int)) =~= views(old_r) + lines_of(t));
            }
        }
        pos = if k < s.len() { k + 1 } else { k };
    }
    proof {
        assert(s@.skip(pos as int).len() == 0);
        assert(views(r@) + lines_of(s@.skip(pos as int)) =~= views(r@));
    }
    r
}

} // verus!

verus! {

/// `n` occurs in `h` at position `i`.
pub open spec fn occurs_at(h: Seq<char>, n: Seq<char>, i: int) -> bool {
    0 <= i && i + n.len() <= h.len() && h.subrange(i, i + n.len()) == n
}

/// `n` occurs somewhere in `h`.
pub open spec fn contains(h: Seq<char>, n: Seq<char>) -> bool {
    exists|i: int| #[trigger] occurs_at(h, n, i)
}

fn matches_at(h: &Vec<char>, n: &Vec<char>, i: usize) -> (r: bool)
    requires
        i + n@.len() <= h@.len(),
    ensures
        r == occurs_at(h@, n@, i as int),
{
    let hl = h.len();
    let mut j: usize = 0;
    while j < n.len()
        invariant
            hl == h@.len(),
            i + n@.len() <= h@.len(),
            j <= n@.len(),
            forall|k: int| 0 <= k < j ==> h@[i + k] == n@[k],
        decreases n@.len() - j,
    {
        assert(i + j < h@.len());
        if h[i + j] != n[j] {
            assert(h@.subrange(i as int, i + n@.len())[j as int] != n@[j as int]);
            return false;
        }
        j += 1;
    }
    assert(h@.subrange(i as int, i + n@.len()) =~= n@);
    true
}

/// Whether `n` occurs in `h`.
pub fn contains_chars(h: &Vec<char>, n: &Vec<char>) -> (r: bool)
    ensures
        r == contains(h@, n@),
{
    if n.len() > h.len() {
        return false;
    }
    if n.len() == 0 {
        assert(h@.subrange(0, 0) =~= n@);
        assert(occurs_at(h@, n@, 0));
        return true;
    }
    let hl = h.len();
    let last = hl - n.len();
    let mut i: usize = 0;
    while i <= last
        invariant
            hl == h@.len(),
            last + n@.len() == h@.len(),
            n@.len() > 0,
            i <= last + 1,
            forall|k: int| 0 <= k < i ==> !#[trigger] occurs_at(h@, n@, k),
        decreases last + 1 - i,
    {
        if matches_at(h, n, i) {
            return true;
        }
        i += 1;
    }
    false
}

/// Whether the character `c` occurs in `h`.
pub fn contains_char(h: &Vec<char>, c: char) -> (r: bool)
    ensures
        r == contains(h@, seq![c]),
{
    let n = vec![c];
    assert(n@ =~= seq![c]);
    contains_chars(h, &n)
}

} // verus!

verus! {

/// What `unindent::unindent` makes of a text: the first line kept as it is;
/// from each later line, as many leading characters removed as the fewest
/// leading spaces and tabs among the later lines not made of those alone.
pub uninterp spec fn unindented(s: Seq<char>) -> Seq<char>;

/// Relies on unindent::unindent, which removes the indentation common to all
/// lines after the first; the result depends on the text alone.
#[verifier::external_body]
pub(crate) fn unindent_text(s: &str) -> (r: String)
    ensures
        r@ == unindented(s@),
{
    unindent::unindent(s)
}

/// A white-space character: one with the Unicode `White_Space` property, the
/// characters that `str::trim` removes.
pub open spec fn is_ws(c: char) -> bool {
    let n = c as u32;
    (9 <= n <= 13) || n == 32 || n == 0x85 || n == 0xA0 || n == 0x1680 || (0x2000 <= n <= 0x200A)
        || n == 0x2028 || n == 0x2029 || n == 0x202F || n == 0x205F || n == 0x3000
}

/// Whether `c` is white space.
pub fn ws(c: char) -> (r: bool)
    ensures
        r == is_ws(c),
{
    let n = c as u32;
    (9 <= n && n <= 13) || n == 32 || n == 0x85 || n == 0xA0 || n == 0x1680 || (0x2000 <= n && n
        <= 0x200A) || n == 0x2028 || n == 0x2029 || n == 0x202F || n == 0x205F || n == 0x3000
}

/// Every character of `s` is white space.
pub open spec fn is_blank(s: Seq<char>) -> bool {
    forall|i: int| 0 <= i < s.len() ==> is_ws(#[trigger] s[i])
}

/// Whether every character of `s` is white space.
pub fn blank(s: &Vec<char>) -> (r: bool)
    ensures
        r == is_blank(s@),
{
    let mut i: usize = 0;
    while i < s.len()
        invariant
            i <= s@.len(),
            forall|k: int| 0 <= k < i ==> is_ws(#[trigger] s@[k]),
        decreases s@.len() - i,
    {
        let c = s[i];
        if !ws(c) {
            return false;
        }
        i += 1;
    }
    true
}

/// Every character of `s` is a space.
pub open spec fn only_spaces(s: Seq<char>) -> bool {
    forall|i: int| 0 <= i < s.len() ==> #[trigger] s[i] == ' '
}

/// Whether every character of `s` is a space.
pub fn spaces_only(s: &Vec<char>) -> (r: bool)
    ensures
        r == only_spaces(s@),
{
    let mut i: usize = 0;
    while i < s.len()
        invariant
            i <= s@.len(),
            forall|k: int| 0 <= k < i ==> #[trigger] s@[k] == ' ',
        decreases s@.len() - i,
    {
        if s[i] != ' ' {
            return false;
        }
        i += 1;
    }
    true
}

/// The first character of `s` that is not white space is `c`.
pub open spec fn first_non_ws_is(s: Seq<char>, c: char) -> bool {
    exists|k: int|
        0 <= k < s.len() && s[k] == c && #[trigger] is_blank(s.take(k))
}

/// Whether the first character of `s` that is not white space is `c`.
pub fn first_non_ws_eq(s: &Vec<char>, c: char) -> (r: bool)
    requires
        !is_ws(c),
    ensures
        r == first_non_ws_is(s@, c),
{
    let mut i: usize = 0;
    while i < s.len()
        invariant
            i <= s@.len(),
            !is_ws(c),
            forall|k: int| 0 <= k < i ==> is_ws(#[trigger] s@[k]),
        decreases s@.len() - i,
    {
        let d = s[i];
        if !ws(d) {
            proof {
                assert(is_blank(s@.take(i as int)));
                if d != c {
                    assert forall|k: int|
                        0 <= k < s@.len() && s@[k] == c && #[trigger] is_blank(s@.take(k))
                        implies false by {
                        assert(!is_ws(d));
                        if k > i {
                            assert(s@.take(k)[i as int] == d);
                            assert(is_ws(s@.take(k)[i as int]));
                        } else if k < i {
                            assert(is_ws(s@[k]));
                        }
                    }
                }
            }
            return d == c;
        }
        i += 1;
    }
    false
}

} // verus!
