//! Character-level operations on text, each proved against its `Seq<char>`
//! meaning.

use vstd::prelude::*;

verus! {

broadcast use vstd::string::group_string_axioms;

/// `needle` occurs somewhere inside `hay` as a contiguous run.
pub open spec fn occurs_in(needle: Seq<char>, hay: Seq<char>) -> bool {
    exists|i: int|
        0 <= i && i + needle.len() <= hay.len() && #[trigger] hay.subrange(i, i + needle.len())
            == needle
}

/// `text` with every backslash replaced by a forward slash.
pub open spec fn with_forward_slashes(text: Seq<char>) -> Seq<char> {
    text.map_values(|c: char| if c == '\\' { '/' } else { c })
}

/// The text of an optional owned string.
pub open spec fn opt_text(o: Option<String>) -> Option<Seq<char>> {
    match o {
        Some(s) => Some(s@),
        None => None,
    }
}

/// The characters of `s`, in order.
pub fn chars_of(s: &str) -> (v: Vec<char>)
    ensures
        v@ == s@,
{
    let mut v: Vec<char> = Vec::new();
    for c in it: s.chars()
        invariant
            v@ == it.seq().take(it.index() as int),
    {
        v.push(c);
    }
    v
}

/// Whether `pat` stands in `s` at position `at`.
pub fn matches_at(s: &Vec<char>, at: usize, pat: &Vec<char>) -> (r: bool)
    requires
        at + pat.len() <= s.len(),
    ensures
        r == (s@.subrange(at as int, at + pat.len()) == pat@),
{
    let mut k: usize = 0;
    while k < pat.len()
        invariant
            k <= pat.len(),
            at + pat.len() <= s.len(),
            forall|j: int| 0 <= j < k ==> s@[at + j] == pat@[j],
        decreases pat.len() - k,
    {
        if s[at + k] != pat[k] {
            assert(s@.subrange(at as int, at + pat.len())[k as int] != pat@[k as int]);
            return false;
        }
        k = k + 1;
    }
    assert(s@.subrange(at as int, at + pat.len()) =~= pat@);
    true
}

/// Whether the characters of `s` are exactly those of `lit`.
pub fn same_text(s: &Vec<char>, lit: &str) -> (r: bool)
    ensures
        r == (s@ == lit@),
{
    let p = chars_of(lit);
    if p.len() != s.len() {
        return false;
    }
    let r = matches_at(s, 0, &p);
    assert(s@.subrange(0, s@.len() as int) =~= s@);
    r
}

/// Whether `s` begins with `lit`.
pub fn starts_with(s: &Vec<char>, lit: &str) -> (r: bool)
    ensures
        r == lit@.is_prefix_of(s@),
{
    let p = chars_of(lit);
    if p.len() > s.len() {
        return false;
    }
    matches_at(s, 0, &p)
}

/// Whether `s` ends with `lit`.
pub fn ends_with(s: &Vec<char>, lit: &str) -> (r: bool)
    ensures
        r == lit@.is_suffix_of(s@),
{
    let p = chars_of(lit);
    if p.len() > s.len() {
        return false;
    }
    matches_at(s, s.len() - p.len(), &p)
}

/// Whether `lit` occurs anywhere in `s`.
pub fn contains_text(s: &Vec<char>, lit: &str) -> (r: bool)
    ensures
        r == occurs_in(lit@, s@),
{
    let p = chars_of(lit);
    if p.len() > s.len() {
        return false;
    }
    let last = s.len() - p.len();
    let mut i: usize = 0;
    while i <= last
        invariant
            last + p.len() == s.len(),
            p@ == lit@,
            forall|j: int| 0 <= j < i ==> #[trigger] s@.subrange(j, j + p.len()) != p@,
        decreases last + 1 - i,
    {
        if matches_at(s, i, &p) {
            return true;
        }
        if i == last {
            return false;
        }
        i = i + 1;
    }
    false
}

/// `s` with every backslash replaced by a forward slash.
pub fn forward_slashes(s: &Vec<char>) -> (r: Vec<char>)
    ensures
        r@ == with_forward_slashes(s@),
{
    let mut r: Vec<char> = Vec::new();
    let mut i: usize = 0;
    while i < s.len()
        invariant
            i <= s.len(),
            r@ == with_forward_slashes(s@.take(i as int)),
        decreases s.len() - i,
    {
        let c = s[i];
        if c == '\\' {
            r.push('/');
        } else {
            r.push(c);
        }
        assert(s@.take(i + 1) =~= s@.take(i as int).push(c));
        i = i + 1;
    }
    assert(s@.take(s.len() as int) =~= s@);
    r
}

} // verus!
