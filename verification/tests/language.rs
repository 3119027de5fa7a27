use testsmith::cli::{Framework, Language};
use testsmith::config::language::{default_framework_for_language, detect_language};
use testsmith::error::TestsmithError;

#[test]
fn test_detect_java_language() {
    assert_eq!(detect_language("Foo.java").unwrap(), Language::Java);
}

#[test]
fn test_detect_rust_language() {
    assert_eq!(detect_language("lib.rs").unwrap(), Language::Rust);
}

#[test]
fn test_detect_python_language() {
    assert_eq!(detect_language("script.py").unwrap(), Language::Python);
}

#[test]
fn test_unsupported_extension() {
    let err = detect_language("file.unknown").unwrap_err();
    match err {
        TestsmithError::UnsupportedLanguage { language } => assert_eq!(language, "unknown"),
        other => panic!("unexpected error: {:?}", other),
    }
}

#[test]
fn test_no_extension() {
    let err = detect_language("Makefile").unwrap_err();
    match err {
        TestsmithError::InvalidSourceFile { reason } => {
            assert_eq!(reason, "File has no extension")
        }
        other => panic!("unexpected error: {:?}", other),
    }
}

#[test]
fn test_default_framework_java() {
    assert_eq!(default_framework_for_language(Language::Java), Framework::JUnit);
}

#[test]
fn test_default_framework_rust() {
    assert_eq!(default_framework_for_language(Language::Rust), Framework::Native);
}

#[test]
fn test_detect_javascript_and_typescript() {
    assert_eq!(detect_language("app.js").unwrap(), Language::JavaScript);
    assert_eq!(detect_language("app.ts").unwrap(), Language::TypeScript);
}

#[test]
fn test_hidden_file_has_no_extension() {
    assert!(detect_language(".gitignore").is_err());
}

#[test]
fn test_extension_from_nested_path() {
    assert_eq!(
        detect_language("src/main/java/com/example/Foo.java").unwrap(),
        Language::Java
    );
}
