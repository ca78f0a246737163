//! The parts of a path that the classification rules read, as `std::path`
//! computes them from the path's text.
//!
//! `std::path` splits a path into components by the separators of the
//! platform the crate is built for; the names below stand for that
//! decomposition of the given text.

use vstd::prelude::*;
use crate::text::opt_text;

verus! {

/// The components that `Path::components` yields for this path text, each as
/// its text (the root as the platform writes it, `"."` and `".."` for the
/// relative markers).
pub uninterp spec fn path_components(path: Seq<char>) -> Seq<Seq<char>>;

/// What `Path::file_name` gives for this path text: the final component when it
/// is a normal one, else nothing (for `"/"`, or a path that ends in `".."`).
pub uninterp spec fn path_file_name(path: Seq<char>) -> Option<Seq<char>>;

/// Index of the last occurrence of `c` in `s`, or -1.
pub open spec fn last_index_of(s: Seq<char>, c: char) -> int
    decreases s.len(),
{
    if s.len() == 0 {
        -1
    } else if s.last() == c {
        s.len() - 1
    } else {
        last_index_of(s.drop_last(), c)
    }
}

/// The extension of a file name: the part after its final `.`, unless the
/// name has no `.`, or its only `.` is its first character.
pub open spec fn name_extension(name: Seq<char>) -> Option<Seq<char>> {
    let k = last_index_of(name, '.');
    if k <= 0 {
        None
    } else {
        Some(name.subrange(k + 1, name.len() as int))
    }
}

/// The stem of a file name: the part before its final `.`, or the whole name
/// when it has no `.` or its only `.` is its first character.
pub open spec fn name_stem(name: Seq<char>) -> Seq<char> {
    let k = last_index_of(name, '.');
    if k <= 0 {
        name
    } else {
        name.subrange(0, k)
    }
}

/// The extension of a path: that of its file name, if it has one.
pub open spec fn path_extension(path: Seq<char>) -> Option<Seq<char>> {
    match path_file_name(path) {
        Some(name) => name_extension(name),
        None => None,
    }
}

/// Calls `Path::components` on the path text and returns each component's
/// text. Trusted: the result is what `path_components` names for the text.
#[verifier::external_body]
pub(crate) fn components_of(path: &str) -> (r: Vec<String>)
    ensures
        r@.map_values(|c: String| c@) == path_components(path@),
{
    let mut out = Vec::new();
    for c in std::path::Path::new(path).components() {
        out.push(c.as_os_str().to_string_lossy().into_owned());
    }
    out
}

/// Calls `Path::file_name` on the path text. Trusted: the result is what
/// `path_file_name` names for the text.
#[verifier::external_body]
pub(crate) fn file_name_of(path: &str) -> (r: Option<String>)
    ensures
        opt_text(r) == path_file_name(path@),
{
    std::path::Path::new(path).file_name().map(|n| n.to_string_lossy().into_owned())
}

/// Whether `std::path::is_separator` holds of this character: whether it
/// separates path components on the platform the crate is built for.
pub uninterp spec fn path_separator(c: char) -> bool;

/// Both `/` and `\` separate path components. Of std's platforms, Windows alone
/// reads paths so: Unix takes `/` only, and the platforms whose separator is
/// `\` take `\` only.
pub open spec fn windows_path_rules() -> bool {
    path_separator('/') && path_separator('\\')
}

/// Calls `std::path::is_separator`. Trusted: the result is what
/// `path_separator` names for the character.
#[verifier::external_body]
pub(crate) fn is_path_separator(c: char) -> (r: bool)
    ensures
        r == path_separator(c),
{
    std::path::is_separator(c)
}

/// The position of the last `.` in a file name, if it has one.
pub fn last_dot(name: &Vec<char>) -> (k: Option<usize>)
    ensures
        match k {
            Some(k) => k < name.len() && last_index_of(name@, '.') == k as int,
            None => last_index_of(name@, '.') == -1,
        },
{
    let mut i: usize = name.len();
    assert(name@.take(i as int) =~= name@);
    while i > 0
        invariant
            i <= name.len(),
            last_index_of(name@.take(i as int), '.') == last_index_of(name@, '.'),
        decreases i,
    {
        assert(name@.take(i as int).drop_last() =~= name@.take(i - 1));
        if name[i - 1] == '.' {
            return Some(i - 1);
        }
        i = i - 1;
    }
    None
}

/// The characters of `v` from `from` up to `to`.
pub fn slice_chars(v: &Vec<char>, from: usize, to: usize) -> (r: Vec<char>)
    requires
        from <= to <= v.len(),
    ensures
        r@ == v@.subrange(from as int, to as int),
{
    let mut r: Vec<char> = Vec::new();
    let mut i: usize = from;
    while i < to
        invariant
            from <= i <= to <= v.len(),
            r@ == v@.subrange(from as int, i as int),
        decreases to - i,
    {
        r.push(v[i]);
        assert(v@.subrange(from as int, i + 1) =~= v@.subrange(from as int, i as int).push(v[i as int]));
        i = i + 1;
    }
    r
}

/// The extension of a file name, as `Path::extension` documents it.
pub fn extension_of_name(name: &Vec<char>) -> (r: Option<Vec<char>>)
    ensures
        match r {
            Some(e) => name_extension(name@) == Some(e@),
            None => name_extension(name@) is None,
        },
{
    match last_dot(name) {
        Some(k) => {
            if k == 0 {
                None
            } else {
                Some(slice_chars(name, k + 1, name.len()))
            }
        },
        None => None,
    }
}

/// The stem of a file name, as `Path::file_stem` documents it.
pub fn stem_of_name(name: &Vec<char>) -> (r: Vec<char>)
    ensures
        r@ == name_stem(name@),
{
    match last_dot(name) {
        Some(k) => {
            if k == 0 {
                slice_chars(name, 0, name.len())
            } else {
                slice_chars(name, 0, k)
            }
        },
        None => slice_chars(name, 0, name.len()),
    }
}

} // verus!
