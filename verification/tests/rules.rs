use pruner::languages::{
    classify_test_path, detect_language, is_ignored_dir, is_ignored_extension, is_ignored_file,
    is_test_file, language_for_extension, Language,
};

#[test]
fn extension_table_is_exact() {
    let table = [
        ("py", Language::Python),
        ("js", Language::JavaScript),
        ("mjs", Language::JavaScript),
        ("cjs", Language::JavaScript),
        ("ts", Language::TypeScript),
        ("tsx", Language::Tsx),
        ("jsx", Language::Tsx),
        ("rs", Language::Rust),
        ("go", Language::Go),
        ("java", Language::Java),
        ("c", Language::C),
        ("h", Language::C),
        ("cc", Language::Cpp),
        ("cpp", Language::Cpp),
        ("cxx", Language::Cpp),
        ("c++", Language::Cpp),
        ("hpp", Language::Cpp),
        ("hxx", Language::Cpp),
        ("hh", Language::Cpp),
        ("h++", Language::Cpp),
        ("cs", Language::Csharp),
    ];
    for (ext, lang) in table {
        assert_eq!(language_for_extension(ext), Some(lang));
    }
    assert_eq!(language_for_extension(""), None);
    assert_eq!(language_for_extension("RS"), None);
    assert_eq!(language_for_extension("pyc"), None);
    assert_eq!(language_for_extension("p"), None);
}

#[test]
fn detect_language_reads_the_extension_of_the_file_name() {
    assert_eq!(detect_language("src/main.rs"), Some(Language::Rust));
    assert_eq!(detect_language("a.b/c.d/lib.cs"), Some(Language::Csharp));
    assert_eq!(detect_language("archive.tar.gz"), None);
    assert_eq!(detect_language(".rs"), None);
    assert_eq!(detect_language("dir.py/"), Some(Language::Python));
    assert_eq!(detect_language("src/.."), None);
    assert_eq!(detect_language("/"), None);
    assert_eq!(detect_language("main.RS"), None);
}

#[test]
fn every_language_is_detectable() {
    for (path, lang) in [
        ("a.py", Language::Python),
        ("a.js", Language::JavaScript),
        ("a.ts", Language::TypeScript),
        ("a.tsx", Language::Tsx),
        ("a.rs", Language::Rust),
        ("a.go", Language::Go),
        ("a.java", Language::Java),
        ("a.c", Language::C),
        ("a.cpp", Language::Cpp),
        ("a.cs", Language::Csharp),
    ] {
        assert_eq!(detect_language(path), Some(lang));
    }
}

#[test]
fn ignored_files_have_no_language() {
    for path in ["lib.so", "x.pyc", "a.o", "b.a", "Cargo.lock", "f.woff2", "d.docx", "m.mp4"] {
        assert!(is_ignored_file(path));
        assert_eq!(detect_language(path), None);
    }
}

#[test]
fn ignored_extension_table() {
    assert!(is_ignored_extension("pyc"));
    assert!(is_ignored_extension("lock"));
    assert!(is_ignored_extension("woff2"));
    assert!(!is_ignored_extension("woff3"));
    assert!(!is_ignored_extension(""));
    assert!(!is_ignored_extension("PNG"));
    assert!(!is_ignored_file(".png"));
    assert!(is_ignored_file("dir/x.tar.gz"));
}

#[test]
fn test_dirs_are_not_ignored() {
    for name in ["tests", "test", "__tests__", "spec", "testing"] {
        assert!(!is_ignored_dir(name));
        assert!(is_test_file(&format!("{}/x.py", name)));
    }
    for name in [".svn", ".venv", "venv", "env", "vendor", "dist", "build", ".pruner", ".ruff_cache"] {
        assert!(is_ignored_dir(name));
    }
    assert!(!is_ignored_dir(".GIT"));
    assert!(!is_ignored_dir("targets"));
}

#[test]
fn test_file_rules_by_parts() {
    assert!(is_test_file("src/auth/tests/helpers.py"));
    assert!(is_test_file("deep/path/test_x.go"));
    assert!(is_test_file("src/FooTest.java"));
    assert!(is_test_file("a/b/spec/c.rb"));
    assert!(!is_test_file("src/spec_helper.rb"));
    assert!(!is_test_file("src/testdata/x.py"));
    assert!(!is_test_file("src/latest.py"));
    assert!(!is_test_file("contest_main.py"));
    assert!(is_test_file("x/test"));
}

#[test]
fn backslashes_count_as_separators_only_under_windows_rules() {
    let text = "x\\tests\\y.py";
    let comps = vec![text.to_string()];
    let name = Some(text.to_string());
    assert!(classify_test_path(&comps, &name, text, true));
    assert!(!classify_test_path(&comps, &name, text, false));
}

#[test]
fn classify_reads_each_part() {
    let none: Option<String> = None;
    assert!(classify_test_path(&vec!["a".into(), "testing".into()], &none, "a/testing", false));
    assert!(!classify_test_path(&vec!["a".into(), "b".into()], &none, "a/b", false));
    assert!(classify_test_path(&vec![], &Some("x.spec.ts".into()), "", false));
    assert!(classify_test_path(&vec![], &Some("BarTests.cs".into()), "", false));
    assert!(classify_test_path(&vec![], &Some("BarTest".into()), "", false));
    assert!(!classify_test_path(&vec![], &Some("BarTest.x.cs".into()), "", false));
    assert!(classify_test_path(&vec![], &Some(".Test".into()), "", false));
    assert!(!classify_test_path(&vec![], &Some("..Test".into()), "", false));
    assert!(classify_test_path(&vec![], &None, "q/__tests__/r", false));
    assert!(!classify_test_path(&vec![], &None, "q\\__tests__\\r", false));
}

#[test]
fn stem_and_extension_follow_the_last_dot() {
    assert!(is_test_file("src/FooTest.java"));
    assert!(is_test_file("src/FooTest"));
    assert!(is_test_file("src/FooTest."));
    assert!(!is_test_file("src/FooTest.a.b"));
    assert_eq!(detect_language("x."), None);
    assert_eq!(detect_language("..rs"), Some(Language::Rust));
    assert_eq!(detect_language("a.b.py"), Some(Language::Python));
    assert!(is_ignored_file(".x.lock"));
    assert!(!is_ignored_file(".lock"));
}

#[test]
fn backslash_paths_by_name_rule() {
    assert!(is_test_file("x\\tests/y/test_a.py"));
}

#[test]
fn directories_in_front_keep_the_verdict() {
    for p in ["test_x.py", "x_test.go", "FooTests.cs", "main.py", "lib/auth.rs", "spec/models.rb"] {
        let joined = format!("a/b/{}", p);
        assert_eq!(is_test_file(&joined), is_test_file(p));
        let under_tests = format!("tests/b/{}", p);
        assert!(is_test_file(&under_tests));
    }
}
