//! Language detection, test classification, and ignore patterns.

use vstd::prelude::*;
use crate::paths::{
    components_of, extension_of_name, stem_of_name, file_name_of, is_path_separator, name_stem,
    path_components, path_extension, path_file_name, windows_path_rules,
};
use crate::text::{
    chars_of, contains_text, ends_with, forward_slashes, occurs_in, opt_text, same_text,
    starts_with, with_forward_slashes,
};

verus! {

broadcast use vstd::string::group_string_axioms;

/// Languages with full tree-sitter parsing support.
#[derive(Debug, Clone, Copy, PartialEq, Eq, Hash, Structural)]
pub enum Language {
    Python,
    JavaScript,
    TypeScript,
    Tsx,
    Rust,
    Go,
    Java,
    C,
    Cpp,
    Csharp,
}

// ---------------------------------------------------------------------------
// The rules, as mathematics
// ---------------------------------------------------------------------------

/// The language that files with this extension are written in.
pub open spec fn language_of_extension(ext: Seq<char>) -> Option<Language> {
    if ext == "py"@ {
        Some(Language::Python)
    } else if ext == "js"@ || ext == "mjs"@ || ext == "cjs"@ {
        Some(Language::JavaScript)
    } else if ext == "ts"@ {
        Some(Language::TypeScript)
    } else if ext == "tsx"@ || ext == "jsx"@ {
        Some(Language::Tsx)
    } else if ext == "rs"@ {
        Some(Language::Rust)
    } else if ext == "go"@ {
        Some(Language::Go)
    } else if ext == "java"@ {
        Some(Language::Java)
    } else if ext == "c"@ || ext == "h"@ {
        Some(Language::C)
    } else if ext == "cc"@ || ext == "cpp"@ || ext == "cxx"@ || ext == "c++"@ || ext == "hpp"@
        || ext == "hxx"@ || ext == "hh"@ || ext == "h++"@ {
        Some(Language::Cpp)
    } else if ext == "cs"@ {
        Some(Language::Csharp)
    } else {
        None
    }
}

/// The language of a path: that of its extension, if it has one.
pub open spec fn path_language(path: Seq<char>) -> Option<Language> {
    match path_extension(path) {
        Some(ext) => language_of_extension(ext),
        None => None,
    }
}

/// Directory names that hold tests.
pub open spec fn test_dir_names() -> Set<Seq<char>> {
    set!["tests"@, "test"@, "__tests__"@, "spec"@, "testing"@]
}

/// Directory names that indexing skips.
pub open spec fn ignored_dir_names() -> Set<Seq<char>> {
    set![
        ".git"@, ".hg"@, ".svn"@, "node_modules"@, "__pycache__"@, ".tox"@, ".mypy_cache"@,
        ".pytest_cache"@, "venv"@, ".venv"@, "env"@, "vendor"@, ".eggs"@, "dist"@, "build"@,
        "target"@, ".next"@, ".nuxt"@, ".pruner"@, ".ruff_cache"@,
    ]
}

/// File extensions that indexing skips.
pub open spec fn ignored_extensions() -> Set<Seq<char>> {
    set![
        "pyc"@, "pyo"@, "so"@, "dylib"@, "dll"@, "exe"@, "o"@, "a"@, "class"@, "jar"@, "war"@,
        "zip"@, "tar"@, "gz"@, "bz2"@, "png"@, "jpg"@, "jpeg"@, "gif"@, "ico"@, "svg"@, "woff"@,
        "woff2"@, "ttf"@, "eot"@, "mp3"@, "mp4"@, "avi"@, "mov"@, "pdf"@, "doc"@, "docx"@,
        "xls"@, "xlsx"@, "ppt"@, "pptx"@, "lock"@,
    ]
}

/// Whether a path is skipped for its extension.
pub open spec fn path_is_ignored(path: Seq<char>) -> bool {
    match path_extension(path) {
        Some(ext) => ignored_extensions().contains(ext),
        None => false,
    }
}

/// Some component of the path is a test directory name.
pub open spec fn under_test_dir(components: Seq<Seq<char>>) -> bool {
    exists|i: int| 0 <= i < components.len() && test_dir_names().contains(#[trigger] components[i])
}

/// The file name follows a test naming convention: a `test_` prefix, a
/// `_test.`, `.test.`, `_spec.` or `.spec.` infix, or a stem that ends in `Test`
/// or `Tests`.
pub open spec fn name_marks_test(name: Option<Seq<char>>) -> bool {
    match name {
        Some(n) => {
            ||| "test_"@.is_prefix_of(n)
            ||| occurs_in("_test."@, n)
            ||| occurs_in(".test."@, n)
            ||| occurs_in("_spec."@, n)
            ||| occurs_in(".spec."@, n)
            ||| "Test"@.is_suffix_of(name_stem(n))
            ||| "Tests"@.is_suffix_of(name_stem(n))
        },
        None => false,
    }
}

/// The path text holds a `/tests/`, `/test/` or `/__tests__/` segment.
pub open spec fn has_test_dir_marker(text: Seq<char>) -> bool {
    occurs_in("/tests/"@, text) || occurs_in("/test/"@, text) || occurs_in("/__tests__/"@, text)
}

/// The text that the test-directory markers are looked for in: under Windows
/// rules, with backslashes read as forward slashes.
pub open spec fn marker_text(text: Seq<char>, windows: bool) -> Seq<char> {
    if windows {
        with_forward_slashes(text)
    } else {
        text
    }
}

/// The test-file rule over the parts of a path.
pub open spec fn test_path_rule(
    components: Seq<Seq<char>>,
    name: Option<Seq<char>>,
    text: Seq<char>,
    windows: bool,
) -> bool {
    ||| under_test_dir(components)
    ||| name_marks_test(name)
    ||| has_test_dir_marker(marker_text(text, windows))
}

/// The test-file rule applied to a path text.
pub open spec fn path_is_test_file(path: Seq<char>, windows: bool) -> bool {
    test_path_rule(path_components(path), path_file_name(path), path, windows)
}

// ---------------------------------------------------------------------------
// The executable functions
// ---------------------------------------------------------------------------

/// The language of a file with extension `ext`; `None` when unsupported.
pub fn language_for_extension(ext: &str) -> (r: Option<Language>)
    ensures
        r == language_of_extension(ext@),
{
    language_for_chars(&chars_of(ext))
}

/// The language of a file whose extension has these characters.
fn language_for_chars(e: &Vec<char>) -> (r: Option<Language>)
    ensures
        r == language_of_extension(e@),
{
    if same_text(e, "py") {
        Some(Language::Python)
    } else if same_text(e, "js") || same_text(e, "mjs") || same_text(e, "cjs") {
        Some(Language::JavaScript)
    } else if same_text(e, "ts") {
        Some(Language::TypeScript)
    } else if same_text(e, "tsx") || same_text(e, "jsx") {
        Some(Language::Tsx)
    } else if same_text(e, "rs") {
        Some(Language::Rust)
    } else if same_text(e, "go") {
        Some(Language::Go)
    } else if same_text(e, "java") {
        Some(Language::Java)
    } else if same_text(e, "c") || same_text(e, "h") {
        Some(Language::C)
    } else if same_text(e, "cc") || same_text(e, "cpp") || same_text(e, "cxx") || same_text(
        &e,
        "c++",
    ) || same_text(e, "hpp") || same_text(e, "hxx") || same_text(e, "hh") || same_text(
        &e,
        "h++",
    ) {
        Some(Language::Cpp)
    } else if same_text(e, "cs") {
        Some(Language::Csharp)
    } else {
        None
    }
}

/// Detect language from file extension. Returns None for unsupported extensions.
pub fn detect_language(path: &str) -> (r: Option<Language>)
    ensures
        r == path_language(path@),
{
    match file_name_of(path) {
        Some(name) => match extension_of_name(&chars_of(name.as_str())) {
            Some(ext) => language_for_chars(&ext),
            None => None,
        },
        None => None,
    }
}

/// Whether `name` is one of the test directory names.
fn is_test_dir_chars(name: &Vec<char>) -> (r: bool)
    ensures
        r == test_dir_names().contains(name@),
{
    same_text(name, "tests") || same_text(name, "test") || same_text(name, "__tests__")
        || same_text(name, "spec") || same_text(name, "testing")
}

/// Whether a file name follows a test naming convention.
fn name_is_test(file_name: &Option<String>) -> (r: bool)
    ensures
        r == name_marks_test(opt_text(*file_name)),
{
    match file_name {
        Some(name) => {
            let n = chars_of(name.as_str());
            if starts_with(&n, "test_") {
                return true;
            }
            if contains_text(&n, "_test.") || contains_text(&n, ".test.") || contains_text(
                &n,
                "_spec.",
            ) || contains_text(&n, ".spec.") {
                return true;
            }
            let stem = stem_of_name(&n);
            ends_with(&stem, "Test") || ends_with(&stem, "Tests")
        },
        None => false,
    }
}

/// The test-file rule over the parts of a path as `std::path` gives them: its
/// components and file name, its whole text, and whether the platform reads
/// paths by Windows rules.
pub fn classify_test_path(
    components: &Vec<String>,
    file_name: &Option<String>,
    text: &str,
    windows: bool,
) -> (r: bool)
    ensures
        r == test_path_rule(
            components@.map_values(|c: String| c@),
            opt_text(*file_name),
            text@,
            windows,
        ),
{
    let ghost comps = components@.map_values(|c: String| c@);
    let mut i: usize = 0;
    while i < components.len()
        invariant
            i <= components.len(),
            comps == components@.map_values(|c: String| c@),
            forall|j: int| 0 <= j < i ==> !test_dir_names().contains(#[trigger] comps[j]),
        decreases components.len() - i,
    {
        let c = chars_of(components[i].as_str());
        if is_test_dir_chars(&c) {
            assert(test_dir_names().contains(comps[i as int]));
            return true;
        }
        i = i + 1;
    }
    if name_is_test(file_name) {
        return true;
    }
    let t = chars_of(text);
    let t = if windows {
        forward_slashes(&t)
    } else {
        t
    };
    contains_text(&t, "/tests/") || contains_text(&t, "/test/") || contains_text(&t, "/__tests__/")
}

/// Check if a file is a test file based on path conventions.
pub fn is_test_file(path: &str) -> (r: bool)
    ensures
        r == path_is_test_file(path@, windows_path_rules()),
        !path@.contains('\\') ==> r == path_is_test_file(path@, false),
{
    let components = components_of(path);
    let file_name = file_name_of(path);
    let windows = is_path_separator('/') && is_path_separator('\\');
    let r = classify_test_path(&components, &file_name, path, windows);
    proof {
        if !path@.contains('\\') {
            lemma_forward_slashes_without_backslash(path@);
        }
    }
    r
}

/// Check if a directory should be skipped during indexing.
pub fn is_ignored_dir(name: &str) -> (r: bool)
    ensures
        r == ignored_dir_names().contains(name@),
{
    let n = chars_of(name);
    same_text(&n, ".git") || same_text(&n, ".hg") || same_text(&n, ".svn") || same_text(
        &n,
        "node_modules",
    ) || same_text(&n, "__pycache__") || same_text(&n, ".tox") || same_text(&n, ".mypy_cache")
        || same_text(&n, ".pytest_cache") || same_text(&n, "venv") || same_text(&n, ".venv")
        || same_text(&n, "env") || same_text(&n, "vendor") || same_text(&n, ".eggs") || same_text(
        &n,
        "dist",
    ) || same_text(&n, "build") || same_text(&n, "target") || same_text(&n, ".next")
        || same_text(&n, ".nuxt") || same_text(&n, ".pruner") || same_text(&n, ".ruff_cache")
}

/// Whether files with extension `ext` are skipped.
pub fn is_ignored_extension(ext: &str) -> (r: bool)
    ensures
        r == ignored_extensions().contains(ext@),
{
    extension_chars_ignored(&chars_of(ext))
}

/// Whether files whose extension has these characters are skipped.
fn extension_chars_ignored(e: &Vec<char>) -> (r: bool)
    ensures
        r == ignored_extensions().contains(e@),
{
    same_text(e, "pyc") || same_text(e, "pyo") || same_text(e, "so") || same_text(e, "dylib")
        || same_text(e, "dll") || same_text(e, "exe") || same_text(e, "o") || same_text(
        &e,
        "a",
    ) || same_text(e, "class") || same_text(e, "jar") || same_text(e, "war") || same_text(
        &e,
        "zip",
    ) || same_text(e, "tar") || same_text(e, "gz") || same_text(e, "bz2") || same_text(
        &e,
        "png",
    ) || same_text(e, "jpg") || same_text(e, "jpeg") || same_text(e, "gif") || same_text(
        &e,
        "ico",
    ) || same_text(e, "svg") || same_text(e, "woff") || same_text(e, "woff2") || same_text(
        &e,
        "ttf",
    ) || same_text(e, "eot") || same_text(e, "mp3") || same_text(e, "mp4") || same_text(
        &e,
        "avi",
    ) || same_text(e, "mov") || same_text(e, "pdf") || same_text(e, "doc") || same_text(
        &e,
        "docx",
    ) || same_text(e, "xls") || same_text(e, "xlsx") || same_text(e, "ppt") || same_text(
        &e,
        "pptx",
    ) || same_text(e, "lock")
}

/// Check if a file should be skipped based on extension.
pub fn is_ignored_file(path: &str) -> (r: bool)
    ensures
        r == path_is_ignored(path@),
{
    match file_name_of(path) {
        Some(name) => match extension_of_name(&chars_of(name.as_str())) {
            Some(ext) => extension_chars_ignored(&ext),
            None => false,
        },
        None => false,
    }
}

// ---------------------------------------------------------------------------
// Laws
// ---------------------------------------------------------------------------

/// Reading backslashes as forward slashes changes nothing in a text without
/// backslashes.
pub proof fn lemma_forward_slashes_without_backslash(text: Seq<char>)
    requires
        !text.contains('\\'),
    ensures
        with_forward_slashes(text) == text,
{
    assert forall|i: int| 0 <= i < text.len() implies with_forward_slashes(text)[i] == text[i] by {
        if text[i] == '\\' {
            assert(text.contains('\\'));
        }
    }
    assert(with_forward_slashes(text) =~= text);
}

} // verus!
