//! Properties that hold across the classification functions.

use vstd::prelude::*;
use crate::languages::{
    has_test_dir_marker, ignored_dir_names, ignored_extensions, language_of_extension,
    marker_text, name_marks_test, path_is_ignored, path_is_test_file, path_language,
    test_dir_names, test_path_rule, under_test_dir, Language,
};
use crate::paths::{path_components, path_extension, path_file_name};
use crate::text::{occurs_in, with_forward_slashes};

verus! {

broadcast use vstd::string::group_string_axioms;

/// The length and first two letters of each of the extensions that name a language.
proof fn lemma_language_extension_letters()
    ensures
        "py"@.len() == 2 && "py"@[0] == 'p' && "py"@[1] == 'y',
        "js"@.len() == 2 && "js"@[0] == 'j' && "js"@[1] == 's',
        "mjs"@.len() == 3 && "mjs"@[0] == 'm' && "mjs"@[1] == 'j',
        "cjs"@.len() == 3 && "cjs"@[0] == 'c' && "cjs"@[1] == 'j',
        "ts"@.len() == 2 && "ts"@[0] == 't' && "ts"@[1] == 's',
        "tsx"@.len() == 3 && "tsx"@[0] == 't' && "tsx"@[1] == 's',
        "jsx"@.len() == 3 && "jsx"@[0] == 'j' && "jsx"@[1] == 's',
        "rs"@.len() == 2 && "rs"@[0] == 'r' && "rs"@[1] == 's',
        "go"@.len() == 2 && "go"@[0] == 'g' && "go"@[1] == 'o',
        "java"@.len() == 4 && "java"@[0] == 'j' && "java"@[1] == 'a',
        "c"@.len() == 1 && "c"@[0] == 'c',
        "h"@.len() == 1 && "h"@[0] == 'h',
        "cc"@.len() == 2 && "cc"@[0] == 'c' && "cc"@[1] == 'c',
        "cpp"@.len() == 3 && "cpp"@[0] == 'c' && "cpp"@[1] == 'p',
        "cxx"@.len() == 3 && "cxx"@[0] == 'c' && "cxx"@[1] == 'x',
        "c++"@.len() == 3 && "c++"@[0] == 'c' && "c++"@[1] == '+',
        "hpp"@.len() == 3 && "hpp"@[0] == 'h' && "hpp"@[1] == 'p',
        "hxx"@.len() == 3 && "hxx"@[0] == 'h' && "hxx"@[1] == 'x',
        "hh"@.len() == 2 && "hh"@[0] == 'h' && "hh"@[1] == 'h',
        "h++"@.len() == 3 && "h++"@[0] == 'h' && "h++"@[1] == '+',
        "cs"@.len() == 2 && "cs"@[0] == 'c' && "cs"@[1] == 's',
{
    reveal_strlit("py");
    reveal_strlit("js");
    reveal_strlit("mjs");
    reveal_strlit("cjs");
    reveal_strlit("ts");
    reveal_strlit("tsx");
    reveal_strlit("jsx");
    reveal_strlit("rs");
    reveal_strlit("go");
    reveal_strlit("java");
    reveal_strlit("c");
    reveal_strlit("h");
    reveal_strlit("cc");
    reveal_strlit("cpp");
    reveal_strlit("cxx");
    reveal_strlit("c++");
    reveal_strlit("hpp");
    reveal_strlit("hxx");
    reveal_strlit("hh");
    reveal_strlit("h++");
    reveal_strlit("cs");
}

/// The length and first two letters of each of the extensions that indexing skips.
proof fn lemma_ignored_extension_letters()
    ensures
        "pyc"@.len() == 3 && "pyc"@[0] == 'p' && "pyc"@[1] == 'y',
        "pyo"@.len() == 3 && "pyo"@[0] == 'p' && "pyo"@[1] == 'y',
        "so"@.len() == 2 && "so"@[0] == 's' && "so"@[1] == 'o',
        "dylib"@.len() == 5 && "dylib"@[0] == 'd' && "dylib"@[1] == 'y',
        "dll"@.len() == 3 && "dll"@[0] == 'd' && "dll"@[1] == 'l',
        "exe"@.len() == 3 && "exe"@[0] == 'e' && "exe"@[1] == 'x',
        "o"@.len() == 1 && "o"@[0] == 'o',
        "a"@.len() == 1 && "a"@[0] == 'a',
        "class"@.len() == 5 && "class"@[0] == 'c' && "class"@[1] == 'l',
        "jar"@.len() == 3 && "jar"@[0] == 'j' && "jar"@[1] == 'a',
        "war"@.len() == 3 && "war"@[0] == 'w' && "war"@[1] == 'a',
        "zip"@.len() == 3 && "zip"@[0] == 'z' && "zip"@[1] == 'i',
        "tar"@.len() == 3 && "tar"@[0] == 't' && "tar"@[1] == 'a',
        "gz"@.len() == 2 && "gz"@[0] == 'g' && "gz"@[1] == 'z',
        "bz2"@.len() == 3 && "bz2"@[0] == 'b' && "bz2"@[1] == 'z',
        "png"@.len() == 3 && "png"@[0] == 'p' && "png"@[1] == 'n',
        "jpg"@.len() == 3 && "jpg"@[0] == 'j' && "jpg"@[1] == 'p',
        "jpeg"@.len() == 4 && "jpeg"@[0] == 'j' && "jpeg"@[1] == 'p',
        "gif"@.len() == 3 && "gif"@[0] == 'g' && "gif"@[1] == 'i',
        "ico"@.len() == 3 && "ico"@[0] == 'i' && "ico"@[1] == 'c',
        "svg"@.len() == 3 && "svg"@[0] == 's' && "svg"@[1] == 'v',
        "woff"@.len() == 4 && "woff"@[0] == 'w' && "woff"@[1] == 'o',
        "woff2"@.len() == 5 && "woff2"@[0] == 'w' && "woff2"@[1] == 'o',
        "ttf"@.len() == 3 && "ttf"@[0] == 't' && "ttf"@[1] == 't',
        "eot"@.len() == 3 && "eot"@[0] == 'e' && "eot"@[1] == 'o',
        "mp3"@.len() == 3 && "mp3"@[0] == 'm' && "mp3"@[1] == 'p',
        "mp4"@.len() == 3 && "mp4"@[0] == 'm' && "mp4"@[1] == 'p',
        "avi"@.len() == 3 && "avi"@[0] == 'a' && "avi"@[1] == 'v',
        "mov"@.len() == 3 && "mov"@[0] == 'm' && "mov"@[1] == 'o',
        "pdf"@.len() == 3 && "pdf"@[0] == 'p' && "pdf"@[1] == 'd',
        "doc"@.len() == 3 && "doc"@[0] == 'd' && "doc"@[1] == 'o',
        "docx"@.len() == 4 && "docx"@[0] == 'd' && "docx"@[1] == 'o',
        "xls"@.len() == 3 && "xls"@[0] == 'x' && "xls"@[1] == 'l',
        "xlsx"@.len() == 4 && "xlsx"@[0] == 'x' && "xlsx"@[1] == 'l',
        "ppt"@.len() == 3 && "ppt"@[0] == 'p' && "ppt"@[1] == 'p',
        "pptx"@.len() == 4 && "pptx"@[0] == 'p' && "pptx"@[1] == 'p',
        "lock"@.len() == 4 && "lock"@[0] == 'l' && "lock"@[1] == 'o',
{
    reveal_strlit("pyc");
    reveal_strlit("pyo");
    reveal_strlit("so");
    reveal_strlit("dylib");
    reveal_strlit("dll");
    reveal_strlit("exe");
    reveal_strlit("o");
    reveal_strlit("a");
    reveal_strlit("class");
    reveal_strlit("jar");
    reveal_strlit("war");
    reveal_strlit("zip");
    reveal_strlit("tar");
    reveal_strlit("gz");
    reveal_strlit("bz2");
    reveal_strlit("png");
    reveal_strlit("jpg");
    reveal_strlit("jpeg");
    reveal_strlit("gif");
    reveal_strlit("ico");
    reveal_strlit("svg");
    reveal_strlit("woff");
    reveal_strlit("woff2");
    reveal_strlit("ttf");
    reveal_strlit("eot");
    reveal_strlit("mp3");
    reveal_strlit("mp4");
    reveal_strlit("avi");
    reveal_strlit("mov");
    reveal_strlit("pdf");
    reveal_strlit("doc");
    reveal_strlit("docx");
    reveal_strlit("xls");
    reveal_strlit("xlsx");
    reveal_strlit("ppt");
    reveal_strlit("pptx");
    reveal_strlit("lock");
}

/// The length and first two letters of each of the test and skipped directory names.
proof fn lemma_dir_name_letters()
    ensures
        "tests"@.len() == 5 && "tests"@[0] == 't' && "tests"@[1] == 'e',
        "test"@.len() == 4 && "test"@[0] == 't' && "test"@[1] == 'e',
        "__tests__"@.len() == 9 && "__tests__"@[0] == '_' && "__tests__"@[1] == '_',
        "spec"@.len() == 4 && "spec"@[0] == 's' && "spec"@[1] == 'p',
        "testing"@.len() == 7 && "testing"@[0] == 't' && "testing"@[1] == 'e',
        ".git"@.len() == 4 && ".git"@[0] == '.' && ".git"@[1] == 'g',
        ".hg"@.len() == 3 && ".hg"@[0] == '.' && ".hg"@[1] == 'h',
        ".svn"@.len() == 4 && ".svn"@[0] == '.' && ".svn"@[1] == 's',
        "node_modules"@.len() == 12 && "node_modules"@[0] == 'n' && "node_modules"@[1] == 'o',
        "__pycache__"@.len() == 11 && "__pycache__"@[0] == '_' && "__pycache__"@[1] == '_',
        ".tox"@.len() == 4 && ".tox"@[0] == '.' && ".tox"@[1] == 't',
        ".mypy_cache"@.len() == 11 && ".mypy_cache"@[0] == '.' && ".mypy_cache"@[1] == 'm',
        ".pytest_cache"@.len() == 13 && ".pytest_cache"@[0] == '.' && ".pytest_cache"@[1] == 'p',
        "venv"@.len() == 4 && "venv"@[0] == 'v' && "venv"@[1] == 'e',
        ".venv"@.len() == 5 && ".venv"@[0] == '.' && ".venv"@[1] == 'v',
        "env"@.len() == 3 && "env"@[0] == 'e' && "env"@[1] == 'n',
        "vendor"@.len() == 6 && "vendor"@[0] == 'v' && "vendor"@[1] == 'e',
        ".eggs"@.len() == 5 && ".eggs"@[0] == '.' && ".eggs"@[1] == 'e',
        "dist"@.len() == 4 && "dist"@[0] == 'd' && "dist"@[1] == 'i',
        "build"@.len() == 5 && "build"@[0] == 'b' && "build"@[1] == 'u',
        "target"@.len() == 6 && "target"@[0] == 't' && "target"@[1] == 'a',
        ".next"@.len() == 5 && ".next"@[0] == '.' && ".next"@[1] == 'n',
        ".nuxt"@.len() == 5 && ".nuxt"@[0] == '.' && ".nuxt"@[1] == 'n',
        ".pruner"@.len() == 7 && ".pruner"@[0] == '.' && ".pruner"@[1] == 'p',
        ".ruff_cache"@.len() == 11 && ".ruff_cache"@[0] == '.' && ".ruff_cache"@[1] == 'r',
{
    reveal_strlit("tests");
    reveal_strlit("test");
    reveal_strlit("__tests__");
    reveal_strlit("spec");
    reveal_strlit("testing");
    reveal_strlit(".git");
    reveal_strlit(".hg");
    reveal_strlit(".svn");
    reveal_strlit("node_modules");
    reveal_strlit("__pycache__");
    reveal_strlit(".tox");
    reveal_strlit(".mypy_cache");
    reveal_strlit(".pytest_cache");
    reveal_strlit("venv");
    reveal_strlit(".venv");
    reveal_strlit("env");
    reveal_strlit("vendor");
    reveal_strlit(".eggs");
    reveal_strlit("dist");
    reveal_strlit("build");
    reveal_strlit("target");
    reveal_strlit(".next");
    reveal_strlit(".nuxt");
    reveal_strlit(".pruner");
    reveal_strlit(".ruff_cache");
}

/// No extension that indexing skips belongs to a supported language.
pub proof fn lemma_ignored_extension_has_no_language(ext: Seq<char>)
    requires
        ignored_extensions().contains(ext),
    ensures
        language_of_extension(ext) is None,
{
    lemma_language_extension_letters();
    lemma_ignored_extension_letters();
}

/// A file that is skipped for its extension has no detected language.
pub proof fn lemma_ignored_file_has_no_language(path: Seq<char>)
    requires
        path_is_ignored(path),
    ensures
        path_language(path) is None,
{
    match path_extension(path) {
        Some(ext) => lemma_ignored_extension_has_no_language(ext),
        None => {},
    }
}

/// Test directories are never skipped during indexing.
pub proof fn lemma_test_dirs_not_ignored(name: Seq<char>)
    requires
        test_dir_names().contains(name),
    ensures
        !ignored_dir_names().contains(name),
{
    lemma_dir_name_letters();
}

/// Every supported language is detected from some extension.
pub proof fn lemma_every_language_detectable(lang: Language)
    ensures
        exists|ext: Seq<char>| language_of_extension(ext) == Some(lang),
{
    lemma_language_extension_letters();
    match lang {
        Language::Python => assert(language_of_extension("py"@) == Some(lang)),
        Language::JavaScript => assert(language_of_extension("js"@) == Some(lang)),
        Language::TypeScript => assert(language_of_extension("ts"@) == Some(lang)),
        Language::Tsx => assert(language_of_extension("tsx"@) == Some(lang)),
        Language::Rust => assert(language_of_extension("rs"@) == Some(lang)),
        Language::Go => assert(language_of_extension("go"@) == Some(lang)),
        Language::Java => assert(language_of_extension("java"@) == Some(lang)),
        Language::C => assert(language_of_extension("c"@) == Some(lang)),
        Language::Cpp => assert(language_of_extension("cpp"@) == Some(lang)),
        Language::Csharp => assert(language_of_extension("cs"@) == Some(lang)),
    }
}

/// Components in front of others put the whole sequence under a test directory
/// exactly when they, or the components after them, are.
pub proof fn lemma_under_test_dir_concat(front: Seq<Seq<char>>, back: Seq<Seq<char>>)
    ensures
        under_test_dir(front + back) == (under_test_dir(front) || under_test_dir(back)),
{
    let all = front + back;
    if under_test_dir(all) {
        let i = choose|i: int| 0 <= i < all.len() && test_dir_names().contains(#[trigger] all[i]);
        if i < front.len() {
            assert(front[i] == all[i]);
        } else {
            assert(back[i - front.len()] == all[i]);
        }
    }
    if under_test_dir(front) {
        let i = choose|i: int| 0 <= i < front.len() && test_dir_names().contains(#[trigger] front[i]);
        assert(all[i] == front[i]);
    }
    if under_test_dir(back) {
        let i = choose|i: int| 0 <= i < back.len() && test_dir_names().contains(#[trigger] back[i]);
        assert(all[front.len() + i] == back[i]);
    }
}

/// Putting plain directories `d` in front of a path `p` never changes the
/// test-file verdict, except that a test directory among them makes it a test
/// file. `joined` is the text of `d` joined with `p`; the premises are what
/// `std::path` gives for such a join: its components are those of `d` followed
/// by those of `p`, its file name is that of `p`, and a test-directory marker
/// in the text of `joined` or of `p` stands for a component of that name.
pub proof fn lemma_test_file_under_joined_dirs(
    d: Seq<char>,
    p: Seq<char>,
    joined: Seq<char>,
    windows: bool,
)
    requires
        path_components(joined) == path_components(d) + path_components(p),
        path_file_name(joined) == path_file_name(p),
        has_test_dir_marker(marker_text(joined, windows)) ==> under_test_dir(
            path_components(joined),
        ),
        has_test_dir_marker(marker_text(p, windows)) ==> under_test_dir(path_components(p)),
    ensures
        path_is_test_file(joined, windows) == (under_test_dir(path_components(d))
            || path_is_test_file(p, windows)),
{
    lemma_under_test_dir_concat(path_components(d), path_components(p));
}

/// No component is under a test directory when there are none, and a single
/// component is exactly when it is a test directory name.
pub proof fn lemma_under_test_dir_base(c: Seq<char>)
    ensures
        !under_test_dir(Seq::<Seq<char>>::empty()),
        under_test_dir(seq![c]) == test_dir_names().contains(c),
{
    if test_dir_names().contains(c) {
        assert(seq![c][0] == c);
    }
}

/// Each of the three marks alone makes a path a test file, and a path with
/// none of them is not one.
pub proof fn lemma_test_rule_parts(
    components: Seq<Seq<char>>,
    name: Option<Seq<char>>,
    text: Seq<char>,
    windows: bool,
)
    ensures
        under_test_dir(components) ==> test_path_rule(components, name, text, windows),
        name_marks_test(name) ==> test_path_rule(components, name, text, windows),
        has_test_dir_marker(marker_text(text, windows)) ==> test_path_rule(
            components,
            name,
            text,
            windows,
        ),
        !under_test_dir(components) && !name_marks_test(name) && !has_test_dir_marker(
            marker_text(text, windows),
        ) ==> !test_path_rule(components, name, text, windows),
        !windows ==> marker_text(text, windows) == text,
{
}

/// A path without an extension has no language and is not skipped; a path
/// with one has the language of that extension and is skipped exactly when
/// the extension is.
pub proof fn lemma_path_rules_follow_extension(path: Seq<char>)
    ensures
        path_extension(path) is None ==> path_language(path) is None && !path_is_ignored(path),
        path_extension(path) matches Some(ext) ==> path_language(path) == language_of_extension(
            ext,
        ) && path_is_ignored(path) == ignored_extensions().contains(ext),
{
}

/// Reading backslashes as forward slashes keeps the length, leaves no
/// backslash, and keeps every other character where it stands.
pub proof fn lemma_forward_slashes_shape(text: Seq<char>)
    ensures
        with_forward_slashes(text).len() == text.len(),
        !with_forward_slashes(text).contains('\\'),
        forall|i: int|
            0 <= i < text.len() && text[i] != '\\' ==> with_forward_slashes(text)[i] == text[i],
        forall|i: int|
            0 <= i < text.len() && text[i] == '\\' ==> with_forward_slashes(text)[i] == '/',
{
    let w = with_forward_slashes(text);
    assert forall|i: int| 0 <= i < w.len() implies w[i] != '\\' by {}
}

/// A run occurs in a text exactly when the text is some text, the run, and
/// some more text, one after the other.
pub proof fn lemma_occurs_in_split(needle: Seq<char>, hay: Seq<char>)
    ensures
        occurs_in(needle, hay) <==> exists|a: Seq<char>, b: Seq<char>| #[trigger] (a + needle + b)
            == hay,
{
    if occurs_in(needle, hay) {
        let i = choose|i: int|
            0 <= i && i + needle.len() <= hay.len() && #[trigger] hay.subrange(
                i,
                i + needle.len(),
            ) == needle;
        let a = hay.subrange(0, i);
        let b = hay.subrange(i + needle.len(), hay.len() as int);
        assert(a + needle + b =~= hay);
    }
    if exists|a: Seq<char>, b: Seq<char>| #[trigger] (a + needle + b) == hay {
        let (a, b) = choose|a: Seq<char>, b: Seq<char>| #[trigger] (a + needle + b) == hay;
        assert(hay.subrange(a.len() as int, a.len() + needle.len() as int) =~= needle);
    }
}

} // verus!
