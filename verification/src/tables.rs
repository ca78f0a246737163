//! The rule tables spelled out character by character: which extensions name
//! which language, which extensions and directories are skipped, and which
//! names and path segments mark a test.

use vstd::prelude::*;
use crate::languages::{
    has_test_dir_marker, ignored_dir_names, ignored_extensions, language_of_extension,
    name_marks_test, test_dir_names, Language,
};
use crate::paths::{last_index_of, name_extension, name_stem};
use crate::text::occurs_in;

verus! {

broadcast use vstd::string::group_string_axioms;

/// The characters of the extensions that name a language.
proof fn lemma_language_extensions_spelled()
    ensures
        "py"@ == seq!['p', 'y'],
        "js"@ == seq!['j', 's'],
        "mjs"@ == seq!['m', 'j', 's'],
        "cjs"@ == seq!['c', 'j', 's'],
        "ts"@ == seq!['t', 's'],
        "tsx"@ == seq!['t', 's', 'x'],
        "jsx"@ == seq!['j', 's', 'x'],
        "rs"@ == seq!['r', 's'],
        "go"@ == seq!['g', 'o'],
        "java"@ == seq!['j', 'a', 'v', 'a'],
        "c"@ == seq!['c'],
        "h"@ == seq!['h'],
        "cc"@ == seq!['c', 'c'],
        "cpp"@ == seq!['c', 'p', 'p'],
        "cxx"@ == seq!['c', 'x', 'x'],
        "c++"@ == seq!['c', '+', '+'],
        "hpp"@ == seq!['h', 'p', 'p'],
        "hxx"@ == seq!['h', 'x', 'x'],
        "hh"@ == seq!['h', 'h'],
        "h++"@ == seq!['h', '+', '+'],
        "cs"@ == seq!['c', 's'],
{
    reveal_strlit("py");
    assert("py"@ =~= seq!['p', 'y']);
    reveal_strlit("js");
    assert("js"@ =~= seq!['j', 's']);
    reveal_strlit("mjs");
    assert("mjs"@ =~= seq!['m', 'j', 's']);
    reveal_strlit("cjs");
    assert("cjs"@ =~= seq!['c', 'j', 's']);
    reveal_strlit("ts");
    assert("ts"@ =~= seq!['t', 's']);
    reveal_strlit("tsx");
    assert("tsx"@ =~= seq!['t', 's', 'x']);
    reveal_strlit("jsx");
    assert("jsx"@ =~= seq!['j', 's', 'x']);
    reveal_strlit("rs");
    assert("rs"@ =~= seq!['r', 's']);
    reveal_strlit("go");
    assert("go"@ =~= seq!['g', 'o']);
    reveal_strlit("java");
    assert("java"@ =~= seq!['j', 'a', 'v', 'a']);
    reveal_strlit("c");
    assert("c"@ =~= seq!['c']);
    reveal_strlit("h");
    assert("h"@ =~= seq!['h']);
    reveal_strlit("cc");
    assert("cc"@ =~= seq!['c', 'c']);
    reveal_strlit("cpp");
    assert("cpp"@ =~= seq!['c', 'p', 'p']);
    reveal_strlit("cxx");
    assert("cxx"@ =~= seq!['c', 'x', 'x']);
    reveal_strlit("c++");
    assert("c++"@ =~= seq!['c', '+', '+']);
    reveal_strlit("hpp");
    assert("hpp"@ =~= seq!['h', 'p', 'p']);
    reveal_strlit("hxx");
    assert("hxx"@ =~= seq!['h', 'x', 'x']);
    reveal_strlit("hh");
    assert("hh"@ =~= seq!['h', 'h']);
    reveal_strlit("h++");
    assert("h++"@ =~= seq!['h', '+', '+']);
    reveal_strlit("cs");
    assert("cs"@ =~= seq!['c', 's']);
}

/// The characters of the extensions that indexing skips.
proof fn lemma_ignored_extensions_spelled()
    ensures
        "pyc"@ == seq!['p', 'y', 'c'],
        "pyo"@ == seq!['p', 'y', 'o'],
        "so"@ == seq!['s', 'o'],
        "dylib"@ == seq!['d', 'y', 'l', 'i', 'b'],
        "dll"@ == seq!['d', 'l', 'l'],
        "exe"@ == seq!['e', 'x', 'e'],
        "o"@ == seq!['o'],
        "a"@ == seq!['a'],
        "class"@ == seq!['c', 'l', 'a', 's', 's'],
        "jar"@ == seq!['j', 'a', 'r'],
        "war"@ == seq!['w', 'a', 'r'],
        "zip"@ == seq!['z', 'i', 'p'],
        "tar"@ == seq!['t', 'a', 'r'],
        "gz"@ == seq!['g', 'z'],
        "bz2"@ == seq!['b', 'z', '2'],
        "png"@ == seq!['p', 'n', 'g'],
        "jpg"@ == seq!['j', 'p', 'g'],
        "jpeg"@ == seq!['j', 'p', 'e', 'g'],
        "gif"@ == seq!['g', 'i', 'f'],
        "ico"@ == seq!['i', 'c', 'o'],
        "svg"@ == seq!['s', 'v', 'g'],
        "woff"@ == seq!['w', 'o', 'f', 'f'],
        "woff2"@ == seq!['w', 'o', 'f', 'f', '2'],
        "ttf"@ == seq!['t', 't', 'f'],
        "eot"@ == seq!['e', 'o', 't'],
        "mp3"@ == seq!['m', 'p', '3'],
        "mp4"@ == seq!['m', 'p', '4'],
        "avi"@ == seq!['a', 'v', 'i'],
        "mov"@ == seq!['m', 'o', 'v'],
        "pdf"@ == seq!['p', 'd', 'f'],
        "doc"@ == seq!['d', 'o', 'c'],
        "docx"@ == seq!['d', 'o', 'c', 'x'],
        "xls"@ == seq!['x', 'l', 's'],
        "xlsx"@ == seq!['x', 'l', 's', 'x'],
        "ppt"@ == seq!['p', 'p', 't'],
        "pptx"@ == seq!['p', 'p', 't', 'x'],
        "lock"@ == seq!['l', 'o', 'c', 'k'],
{
    reveal_strlit("pyc");
    assert("pyc"@ =~= seq!['p', 'y', 'c']);
    reveal_strlit("pyo");
    assert("pyo"@ =~= seq!['p', 'y', 'o']);
    reveal_strlit("so");
    assert("so"@ =~= seq!['s', 'o']);
    reveal_strlit("dylib");
    assert("dylib"@ =~= seq!['d', 'y', 'l', 'i', 'b']);
    reveal_strlit("dll");
    assert("dll"@ =~= seq!['d', 'l', 'l']);
    reveal_strlit("exe");
    assert("exe"@ =~= seq!['e', 'x', 'e']);
    reveal_strlit("o");
    assert("o"@ =~= seq!['o']);
    reveal_strlit("a");
    assert("a"@ =~= seq!['a']);
    reveal_strlit("class");
    assert("class"@ =~= seq!['c', 'l', 'a', 's', 's']);
    reveal_strlit("jar");
    assert("jar"@ =~= seq!['j', 'a', 'r']);
    reveal_strlit("war");
    assert("war"@ =~= seq!['w', 'a', 'r']);
    reveal_strlit("zip");
    assert("zip"@ =~= seq!['z', 'i', 'p']);
    reveal_strlit("tar");
    assert("tar"@ =~= seq!['t', 'a', 'r']);
    reveal_strlit("gz");
    assert("gz"@ =~= seq!['g', 'z']);
    reveal_strlit("bz2");
    assert("bz2"@ =~= seq!['b', 'z', '2']);
    reveal_strlit("png");
    assert("png"@ =~= seq!['p', 'n', 'g']);
    reveal_strlit("jpg");
    assert("jpg"@ =~= seq!['j', 'p', 'g']);
    reveal_strlit("jpeg");
    assert("jpeg"@ =~= seq!['j', 'p', 'e', 'g']);
    reveal_strlit("gif");
    assert("gif"@ =~= seq!['g', 'i', 'f']);
    reveal_strlit("ico");
    assert("ico"@ =~= seq!['i', 'c', 'o']);
    reveal_strlit("svg");
    assert("svg"@ =~= seq!['s', 'v', 'g']);
    reveal_strlit("woff");
    assert("woff"@ =~= seq!['w', 'o', 'f', 'f']);
    reveal_strlit("woff2");
    assert("woff2"@ =~= seq!['w', 'o', 'f', 'f', '2']);
    reveal_strlit("ttf");
    assert("ttf"@ =~= seq!['t', 't', 'f']);
    reveal_strlit("eot");
    assert("eot"@ =~= seq!['e', 'o', 't']);
    reveal_strlit("mp3");
    assert("mp3"@ =~= seq!['m', 'p', '3']);
    reveal_strlit("mp4");
    assert("mp4"@ =~= seq!['m', 'p', '4']);
    reveal_strlit("avi");
    assert("avi"@ =~= seq!['a', 'v', 'i']);
    reveal_strlit("mov");
    assert("mov"@ =~= seq!['m', 'o', 'v']);
    reveal_strlit("pdf");
    assert("pdf"@ =~= seq!['p', 'd', 'f']);
    reveal_strlit("doc");
    assert("doc"@ =~= seq!['d', 'o', 'c']);
    reveal_strlit("docx");
    assert("docx"@ =~= seq!['d', 'o', 'c', 'x']);
    reveal_strlit("xls");
    assert("xls"@ =~= seq!['x', 'l', 's']);
    reveal_strlit("xlsx");
    assert("xlsx"@ =~= seq!['x', 'l', 's', 'x']);
    reveal_strlit("ppt");
    assert("ppt"@ =~= seq!['p', 'p', 't']);
    reveal_strlit("pptx");
    assert("pptx"@ =~= seq!['p', 'p', 't', 'x']);
    reveal_strlit("lock");
    assert("lock"@ =~= seq!['l', 'o', 'c', 'k']);
}

/// The characters of the test and skipped directory names.
proof fn lemma_dir_names_spelled()
    ensures
        "tests"@ == seq!['t', 'e', 's', 't', 's'],
        "test"@ == seq!['t', 'e', 's', 't'],
        "__tests__"@ == seq!['_', '_', 't', 'e', 's', 't', 's', '_', '_'],
        "spec"@ == seq!['s', 'p', 'e', 'c'],
        "testing"@ == seq!['t', 'e', 's', 't', 'i', 'n', 'g'],
        ".git"@ == seq!['.', 'g', 'i', 't'],
        ".hg"@ == seq!['.', 'h', 'g'],
        ".svn"@ == seq!['.', 's', 'v', 'n'],
        "node_modules"@ == seq!['n', 'o', 'd', 'e', '_', 'm', 'o', 'd', 'u', 'l', 'e', 's'],
        "__pycache__"@ == seq!['_', '_', 'p', 'y', 'c', 'a', 'c', 'h', 'e', '_', '_'],
        ".tox"@ == seq!['.', 't', 'o', 'x'],
        ".mypy_cache"@ == seq!['.', 'm', 'y', 'p', 'y', '_', 'c', 'a', 'c', 'h', 'e'],
        ".pytest_cache"@ == seq!['.', 'p', 'y', 't', 'e', 's', 't', '_', 'c', 'a', 'c', 'h', 'e'],
        "venv"@ == seq!['v', 'e', 'n', 'v'],
        ".venv"@ == seq!['.', 'v', 'e', 'n', 'v'],
        "env"@ == seq!['e', 'n', 'v'],
        "vendor"@ == seq!['v', 'e', 'n', 'd', 'o', 'r'],
        ".eggs"@ == seq!['.', 'e', 'g', 'g', 's'],
        "dist"@ == seq!['d', 'i', 's', 't'],
        "build"@ == seq!['b', 'u', 'i', 'l', 'd'],
        "target"@ == seq!['t', 'a', 'r', 'g', 'e', 't'],
        ".next"@ == seq!['.', 'n', 'e', 'x', 't'],
        ".nuxt"@ == seq!['.', 'n', 'u', 'x', 't'],
        ".pruner"@ == seq!['.', 'p', 'r', 'u', 'n', 'e', 'r'],
        ".ruff_cache"@ == seq!['.', 'r', 'u', 'f', 'f', '_', 'c', 'a', 'c', 'h', 'e'],
{
    reveal_strlit("tests");
    assert("tests"@ =~= seq!['t', 'e', 's', 't', 's']);
    reveal_strlit("test");
    assert("test"@ =~= seq!['t', 'e', 's', 't']);
    reveal_strlit("__tests__");
    assert("__tests__"@ =~= seq!['_', '_', 't', 'e', 's', 't', 's', '_', '_']);
    reveal_strlit("spec");
    assert("spec"@ =~= seq!['s', 'p', 'e', 'c']);
    reveal_strlit("testing");
    assert("testing"@ =~= seq!['t', 'e', 's', 't', 'i', 'n', 'g']);
    reveal_strlit(".git");
    assert(".git"@ =~= seq!['.', 'g', 'i', 't']);
    reveal_strlit(".hg");
    assert(".hg"@ =~= seq!['.', 'h', 'g']);
    reveal_strlit(".svn");
    assert(".svn"@ =~= seq!['.', 's', 'v', 'n']);
    reveal_strlit("node_modules");
    assert("node_modules"@ =~= seq!['n', 'o', 'd', 'e', '_', 'm', 'o', 'd', 'u', 'l', 'e', 's']);
    reveal_strlit("__pycache__");
    assert("__pycache__"@ =~= seq!['_', '_', 'p', 'y', 'c', 'a', 'c', 'h', 'e', '_', '_']);
    reveal_strlit(".tox");
    assert(".tox"@ =~= seq!['.', 't', 'o', 'x']);
    reveal_strlit(".mypy_cache");
    assert(".mypy_cache"@ =~= seq!['.', 'm', 'y', 'p', 'y', '_', 'c', 'a', 'c', 'h', 'e']);
    reveal_strlit(".pytest_cache");
    assert(".pytest_cache"@ =~= seq!['.', 'p', 'y', 't', 'e', 's', 't', '_', 'c', 'a', 'c', 'h', 'e']);
    reveal_strlit("venv");
    assert("venv"@ =~= seq!['v', 'e', 'n', 'v']);
    reveal_strlit(".venv");
    assert(".venv"@ =~= seq!['.', 'v', 'e', 'n', 'v']);
    reveal_strlit("env");
    assert("env"@ =~= seq!['e', 'n', 'v']);
    reveal_strlit("vendor");
    assert("vendor"@ =~= seq!['v', 'e', 'n', 'd', 'o', 'r']);
    reveal_strlit(".eggs");
    assert(".eggs"@ =~= seq!['.', 'e', 'g', 'g', 's']);
    reveal_strlit("dist");
    assert("dist"@ =~= seq!['d', 'i', 's', 't']);
    reveal_strlit("build");
    assert("build"@ =~= seq!['b', 'u', 'i', 'l', 'd']);
    reveal_strlit("target");
    assert("target"@ =~= seq!['t', 'a', 'r', 'g', 'e', 't']);
    reveal_strlit(".next");
    assert(".next"@ =~= seq!['.', 'n', 'e', 'x', 't']);
    reveal_strlit(".nuxt");
    assert(".nuxt"@ =~= seq!['.', 'n', 'u', 'x', 't']);
    reveal_strlit(".pruner");
    assert(".pruner"@ =~= seq!['.', 'p', 'r', 'u', 'n', 'e', 'r']);
    reveal_strlit(".ruff_cache");
    assert(".ruff_cache"@ =~= seq!['.', 'r', 'u', 'f', 'f', '_', 'c', 'a', 'c', 'h', 'e']);
}

/// The characters of the test naming marks and path markers.
proof fn lemma_test_marks_spelled()
    ensures
        "test_"@ == seq!['t', 'e', 's', 't', '_'],
        "_test."@ == seq!['_', 't', 'e', 's', 't', '.'],
        ".test."@ == seq!['.', 't', 'e', 's', 't', '.'],
        "_spec."@ == seq!['_', 's', 'p', 'e', 'c', '.'],
        ".spec."@ == seq!['.', 's', 'p', 'e', 'c', '.'],
        "Test"@ == seq!['T', 'e', 's', 't'],
        "Tests"@ == seq!['T', 'e', 's', 't', 's'],
        "/tests/"@ == seq!['/', 't', 'e', 's', 't', 's', '/'],
        "/test/"@ == seq!['/', 't', 'e', 's', 't', '/'],
        "/__tests__/"@ == seq!['/', '_', '_', 't', 'e', 's', 't', 's', '_', '_', '/'],
{
    reveal_strlit("test_");
    assert("test_"@ =~= seq!['t', 'e', 's', 't', '_']);
    reveal_strlit("_test.");
    assert("_test."@ =~= seq!['_', 't', 'e', 's', 't', '.']);
    reveal_strlit(".test.");
    assert(".test."@ =~= seq!['.', 't', 'e', 's', 't', '.']);
    reveal_strlit("_spec.");
    assert("_spec."@ =~= seq!['_', 's', 'p', 'e', 'c', '.']);
    reveal_strlit(".spec.");
    assert(".spec."@ =~= seq!['.', 's', 'p', 'e', 'c', '.']);
    reveal_strlit("Test");
    assert("Test"@ =~= seq!['T', 'e', 's', 't']);
    reveal_strlit("Tests");
    assert("Tests"@ =~= seq!['T', 'e', 's', 't', 's']);
    reveal_strlit("/tests/");
    assert("/tests/"@ =~= seq!['/', 't', 'e', 's', 't', 's', '/']);
    reveal_strlit("/test/");
    assert("/test/"@ =~= seq!['/', 't', 'e', 's', 't', '/']);
    reveal_strlit("/__tests__/");
    assert("/__tests__/"@ =~= seq!['/', '_', '_', 't', 'e', 's', 't', 's', '_', '_', '/']);
}

/// The length and first two characters of each extension that names a language.
proof fn lemma_language_extension_shapes()
    ensures
        seq!['p', 'y'].len() == 2 && seq!['p', 'y'][0] == 'p' && seq!['p', 'y'][1] == 'y',
        seq!['j', 's'].len() == 2 && seq!['j', 's'][0] == 'j' && seq!['j', 's'][1] == 's',
        seq!['m', 'j', 's'].len() == 3 && seq!['m', 'j', 's'][0] == 'm' && seq!['m', 'j', 's'][1] == 'j',
        seq!['c', 'j', 's'].len() == 3 && seq!['c', 'j', 's'][0] == 'c' && seq!['c', 'j', 's'][1] == 'j',
        seq!['t', 's'].len() == 2 && seq!['t', 's'][0] == 't' && seq!['t', 's'][1] == 's',
        seq!['t', 's', 'x'].len() == 3 && seq!['t', 's', 'x'][0] == 't' && seq!['t', 's', 'x'][1] == 's',
        seq!['j', 's', 'x'].len() == 3 && seq!['j', 's', 'x'][0] == 'j' && seq!['j', 's', 'x'][1] == 's',
        seq!['r', 's'].len() == 2 && seq!['r', 's'][0] == 'r' && seq!['r', 's'][1] == 's',
        seq!['g', 'o'].len() == 2 && seq!['g', 'o'][0] == 'g' && seq!['g', 'o'][1] == 'o',
        seq!['j', 'a', 'v', 'a'].len() == 4 && seq!['j', 'a', 'v', 'a'][0] == 'j' && seq!['j', 'a', 'v', 'a'][1] == 'a',
        seq!['c'].len() == 1 && seq!['c'][0] == 'c',
        seq!['h'].len() == 1 && seq!['h'][0] == 'h',
        seq!['c', 'c'].len() == 2 && seq!['c', 'c'][0] == 'c' && seq!['c', 'c'][1] == 'c',
        seq!['c', 'p', 'p'].len() == 3 && seq!['c', 'p', 'p'][0] == 'c' && seq!['c', 'p', 'p'][1] == 'p',
        seq!['c', 'x', 'x'].len() == 3 && seq!['c', 'x', 'x'][0] == 'c' && seq!['c', 'x', 'x'][1] == 'x',
        seq!['c', '+', '+'].len() == 3 && seq!['c', '+', '+'][0] == 'c' && seq!['c', '+', '+'][1] == '+',
        seq!['h', 'p', 'p'].len() == 3 && seq!['h', 'p', 'p'][0] == 'h' && seq!['h', 'p', 'p'][1] == 'p',
        seq!['h', 'x', 'x'].len() == 3 && seq!['h', 'x', 'x'][0] == 'h' && seq!['h', 'x', 'x'][1] == 'x',
        seq!['h', 'h'].len() == 2 && seq!['h', 'h'][0] == 'h' && seq!['h', 'h'][1] == 'h',
        seq!['h', '+', '+'].len() == 3 && seq!['h', '+', '+'][0] == 'h' && seq!['h', '+', '+'][1] == '+',
        seq!['c', 's'].len() == 2 && seq!['c', 's'][0] == 'c' && seq!['c', 's'][1] == 's',
{
}

/// Which extension names which language: each language is named by exactly
/// the extensions listed for it, and every other extension names none.
pub proof fn lemma_extension_languages(ext: Seq<char>)
    ensures
        language_of_extension(ext) == Some(Language::Python) <==> (ext == seq!['p', 'y']),
        language_of_extension(ext) == Some(Language::JavaScript) <==> (ext == seq!['j', 's'] || ext == seq!['m', 'j', 's'] || ext == seq!['c', 'j', 's']),
        language_of_extension(ext) == Some(Language::TypeScript) <==> (ext == seq!['t', 's']),
        language_of_extension(ext) == Some(Language::Tsx) <==> (ext == seq!['t', 's', 'x'] || ext == seq!['j', 's', 'x']),
        language_of_extension(ext) == Some(Language::Rust) <==> (ext == seq!['r', 's']),
        language_of_extension(ext) == Some(Language::Go) <==> (ext == seq!['g', 'o']),
        language_of_extension(ext) == Some(Language::Java) <==> (ext == seq!['j', 'a', 'v', 'a']),
        language_of_extension(ext) == Some(Language::C) <==> (ext == seq!['c'] || ext == seq!['h']),
        language_of_extension(ext) == Some(Language::Cpp) <==> (ext == seq!['c', 'c'] || ext == seq!['c', 'p', 'p'] || ext == seq!['c', 'x', 'x'] || ext == seq!['c', '+', '+'] || ext == seq!['h', 'p', 'p'] || ext == seq!['h', 'x', 'x'] || ext == seq!['h', 'h'] || ext == seq!['h', '+', '+']),
        language_of_extension(ext) == Some(Language::Csharp) <==> (ext == seq!['c', 's']),
        language_of_extension(ext) is None <==> !(ext == seq!['p', 'y'] || ext == seq!['j', 's'] || ext == seq!['m', 'j', 's'] || ext == seq!['c', 'j', 's'] || ext == seq!['t', 's'] || ext == seq!['t', 's', 'x'] || ext == seq!['j', 's', 'x'] || ext == seq!['r', 's'] || ext == seq!['g', 'o'] || ext == seq!['j', 'a', 'v', 'a'] || ext == seq!['c'] || ext == seq!['h'] || ext == seq!['c', 'c'] || ext == seq!['c', 'p', 'p'] || ext == seq!['c', 'x', 'x'] || ext == seq!['c', '+', '+'] || ext == seq!['h', 'p', 'p'] || ext == seq!['h', 'x', 'x'] || ext == seq!['h', 'h'] || ext == seq!['h', '+', '+'] || ext == seq!['c', 's']),
{
    lemma_language_extensions_spelled();
    lemma_language_extension_shapes();
}

/// The extensions that indexing skips, exactly.
pub proof fn lemma_ignored_extensions_listed()
    ensures
        ignored_extensions() == set![
            seq!['p', 'y', 'c'],
            seq!['p', 'y', 'o'],
            seq!['s', 'o'],
            seq!['d', 'y', 'l', 'i', 'b'],
            seq!['d', 'l', 'l'],
            seq!['e', 'x', 'e'],
            seq!['o'],
            seq!['a'],
            seq!['c', 'l', 'a', 's', 's'],
            seq!['j', 'a', 'r'],
            seq!['w', 'a', 'r'],
            seq!['z', 'i', 'p'],
            seq!['t', 'a', 'r'],
            seq!['g', 'z'],
            seq!['b', 'z', '2'],
            seq!['p', 'n', 'g'],
            seq!['j', 'p', 'g'],
            seq!['j', 'p', 'e', 'g'],
            seq!['g', 'i', 'f'],
            seq!['i', 'c', 'o'],
            seq!['s', 'v', 'g'],
            seq!['w', 'o', 'f', 'f'],
            seq!['w', 'o', 'f', 'f', '2'],
            seq!['t', 't', 'f'],
            seq!['e', 'o', 't'],
            seq!['m', 'p', '3'],
            seq!['m', 'p', '4'],
            seq!['a', 'v', 'i'],
            seq!['m', 'o', 'v'],
            seq!['p', 'd', 'f'],
            seq!['d', 'o', 'c'],
            seq!['d', 'o', 'c', 'x'],
            seq!['x', 'l', 's'],
            seq!['x', 'l', 's', 'x'],
            seq!['p', 'p', 't'],
            seq!['p', 'p', 't', 'x'],
            seq!['l', 'o', 'c', 'k'],
        ],
{
    lemma_ignored_extensions_spelled();
}

/// The directory names that indexing skips, exactly.
pub proof fn lemma_ignored_dirs_listed()
    ensures
        ignored_dir_names() == set![
            seq!['.', 'g', 'i', 't'],
            seq!['.', 'h', 'g'],
            seq!['.', 's', 'v', 'n'],
            seq!['n', 'o', 'd', 'e', '_', 'm', 'o', 'd', 'u', 'l', 'e', 's'],
            seq!['_', '_', 'p', 'y', 'c', 'a', 'c', 'h', 'e', '_', '_'],
            seq!['.', 't', 'o', 'x'],
            seq!['.', 'm', 'y', 'p', 'y', '_', 'c', 'a', 'c', 'h', 'e'],
            seq!['.', 'p', 'y', 't', 'e', 's', 't', '_', 'c', 'a', 'c', 'h', 'e'],
            seq!['v', 'e', 'n', 'v'],
            seq!['.', 'v', 'e', 'n', 'v'],
            seq!['e', 'n', 'v'],
            seq!['v', 'e', 'n', 'd', 'o', 'r'],
            seq!['.', 'e', 'g', 'g', 's'],
            seq!['d', 'i', 's', 't'],
            seq!['b', 'u', 'i', 'l', 'd'],
            seq!['t', 'a', 'r', 'g', 'e', 't'],
            seq!['.', 'n', 'e', 'x', 't'],
            seq!['.', 'n', 'u', 'x', 't'],
            seq!['.', 'p', 'r', 'u', 'n', 'e', 'r'],
            seq!['.', 'r', 'u', 'f', 'f', '_', 'c', 'a', 'c', 'h', 'e'],
        ],
{
    lemma_dir_names_spelled();
}

/// The directory names that hold tests, exactly.
pub proof fn lemma_test_dirs_listed()
    ensures
        test_dir_names() == set![
            seq!['t', 'e', 's', 't', 's'],
            seq!['t', 'e', 's', 't'],
            seq!['_', '_', 't', 'e', 's', 't', 's', '_', '_'],
            seq!['s', 'p', 'e', 'c'],
            seq!['t', 'e', 's', 't', 'i', 'n', 'g'],
        ],
{
    lemma_dir_names_spelled();
}

/// A file name marks a test exactly when it begins with `test_`, holds one of
/// `_test.`, `.test.`, `_spec.`, `.spec.`, or has a stem that ends in `Test` or
/// `Tests`; no file name marks nothing.
pub proof fn lemma_test_name_conventions(name: Seq<char>)
    ensures
        name_marks_test(Some(name)) <==> (seq!['t', 'e', 's', 't', '_'].is_prefix_of(name) || occurs_in(seq!['_', 't', 'e', 's', 't', '.'], name)
            || occurs_in(seq!['.', 't', 'e', 's', 't', '.'], name) || occurs_in(seq!['_', 's', 'p', 'e', 'c', '.'], name) || occurs_in(seq!['.', 's', 'p', 'e', 'c', '.'], name)
            || seq!['T', 'e', 's', 't'].is_suffix_of(name_stem(name)) || seq!['T', 'e', 's', 't', 's'].is_suffix_of(name_stem(name))),
        !name_marks_test(None),
{
    lemma_test_marks_spelled();
}

/// A path text carries a test-directory marker exactly when it holds
/// `/tests/`, `/test/` or `/__tests__/`.
pub proof fn lemma_test_dir_markers(text: Seq<char>)
    ensures
        has_test_dir_marker(text) <==> (occurs_in(seq!['/', 't', 'e', 's', 't', 's', '/'], text) || occurs_in(seq!['/', 't', 'e', 's', 't', '/'], text)
            || occurs_in(seq!['/', '_', '_', 't', 'e', 's', 't', 's', '_', '_', '/'], text)),
{
    lemma_test_marks_spelled();
}

/// Where the last occurrence of a character stands: -1 when it does not occur,
/// else an index holding it with no later one.
pub proof fn lemma_last_index_of(s: Seq<char>, c: char)
    ensures
        -1 <= last_index_of(s, c) < s.len(),
        last_index_of(s, c) == -1 ==> forall|j: int| 0 <= j < s.len() ==> s[j] != c,
        last_index_of(s, c) >= 0 ==> s[last_index_of(s, c)] == c,
        forall|j: int| last_index_of(s, c) < j < s.len() ==> s[j] != c,
    decreases s.len(),
{
    if s.len() > 0 && s.last() != c {
        lemma_last_index_of(s.drop_last(), c);
        assert forall|j: int| 0 <= j < s.len() - 1 implies s.drop_last()[j] == s[j] by {}
    }
}

/// A file name splits at its last dot, when that dot is not its first
/// character, into stem and extension: the name is the stem, a dot and the
/// extension, the stem is not empty, and the extension holds no dot. Otherwise
/// there is no extension, the stem is the whole name, and no dot stands after
/// the first character.
pub proof fn lemma_name_splits_at_last_dot(name: Seq<char>)
    ensures
        match name_extension(name) {
            Some(ext) => {
                &&& name == name_stem(name) + seq!['.'] + ext
                &&& name_stem(name).len() > 0
                &&& !ext.contains('.')
            },
            None => {
                &&& name_stem(name) == name
                &&& forall|j: int| 0 < j < name.len() ==> name[j] != '.'
            },
        },
{
    lemma_last_index_of(name, '.');
    let k = last_index_of(name, '.');
    if k > 0 {
        let ext = name.subrange(k + 1, name.len() as int);
        assert(name =~= name.subrange(0, k) + seq!['.'] + ext);
        assert forall|j: int| 0 <= j < ext.len() implies ext[j] != '.' by {
            assert(ext[j] == name[k + 1 + j]);
        }
    }
}

} // verus!
