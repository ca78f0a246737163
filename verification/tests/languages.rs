use pruner::languages::{
    detect_language, is_ignored_dir, is_ignored_file, is_test_file, Language,
};

#[test]
fn test_detect_language_js_variants() {
    assert_eq!(detect_language("app.mjs"), Some(Language::JavaScript));
    assert_eq!(detect_language("app.cjs"), Some(Language::JavaScript));
    assert_eq!(detect_language("app.js"), Some(Language::JavaScript));
}

#[test]
fn test_detect_language_tsx_jsx() {
    assert_eq!(detect_language("App.tsx"), Some(Language::Tsx));
    assert_eq!(detect_language("App.jsx"), Some(Language::Tsx));
}

#[test]
fn test_detect_language_go() {
    assert_eq!(detect_language("main.go"), Some(Language::Go));
}

#[test]
fn test_detect_language_java() {
    assert_eq!(detect_language("Main.java"), Some(Language::Java));
}

#[test]
fn test_detect_language_c() {
    assert_eq!(detect_language("main.c"), Some(Language::C));
    assert_eq!(detect_language("header.h"), Some(Language::C));
}

#[test]
fn test_detect_language_cpp() {
    assert_eq!(detect_language("main.cpp"), Some(Language::Cpp));
    assert_eq!(detect_language("main.cc"), Some(Language::Cpp));
    assert_eq!(detect_language("main.cxx"), Some(Language::Cpp));
    assert_eq!(detect_language("header.hpp"), Some(Language::Cpp));
    assert_eq!(detect_language("header.hxx"), Some(Language::Cpp));
    assert_eq!(detect_language("header.hh"), Some(Language::Cpp));
}

#[test]
fn test_detect_language_unsupported() {
    assert_eq!(detect_language("file.rb"), None);
}

#[test]
fn test_detect_language_no_extension() {
    assert_eq!(detect_language("Makefile"), None);
}

#[test]
fn test_is_test_file_prefix() {
    assert!(is_test_file("test_main.py"));
}

#[test]
fn test_is_test_file_infixes() {
    assert!(is_test_file("auth_test.py"));
    assert!(is_test_file("auth.test.js"));
    assert!(is_test_file("auth_spec.rb"));
    assert!(is_test_file("auth.spec.ts"));
}

#[test]
fn test_is_test_file_java_suffix() {
    assert!(is_test_file("AuthHandlerTest.java"));
    assert!(is_test_file("AuthHandlerTests.java"));
    assert!(!is_test_file("TestUtils.java"));
}

#[test]
fn test_is_test_file_directories() {
    assert!(is_test_file("tests/main.py"));
    assert!(is_test_file("__tests__/App.test.js"));
    assert!(is_test_file("spec/models.rb"));
}

#[test]
fn test_is_test_file_not_test() {
    assert!(!is_test_file("src/main.py"));
    assert!(!is_test_file("lib/auth.rs"));
}

#[test]
fn test_is_ignored_file_binary() {
    assert!(is_ignored_file("lib.so"));
    assert!(is_ignored_file("app.exe"));
    assert!(is_ignored_file("image.png"));
    assert!(is_ignored_file("Cargo.lock"));
}

#[test]
fn test_is_ignored_file_no_extension() {
    assert!(!is_ignored_file("Makefile"));
}

#[test]
fn test_is_ignored_file_code() {
    assert!(!is_ignored_file("main.py"));
    assert!(!is_ignored_file("app.rs"));
}

#[test]
fn test_is_ignored_dir() {
    assert!(is_ignored_dir("node_modules"));
    assert!(is_ignored_dir(".git"));
    assert!(is_ignored_dir("__pycache__"));
    assert!(is_ignored_dir("target"));
    assert!(!is_ignored_dir("src"));
    assert!(!is_ignored_dir("lib"));
}
