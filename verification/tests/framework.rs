use testsmith::cli::{Framework, Language};
use testsmith::config::framework::{is_valid_combination, supported_frameworks_for_language,
    validate_combination};
use testsmith::error::TestsmithError;

#[test]
fn test_java_junit_valid() {
    assert!(is_valid_combination(Language::Java, Framework::JUnit));
}

#[test]
fn test_java_testng_valid() {
    assert!(is_valid_combination(Language::Java, Framework::TestNG));
}

#[test]
fn test_java_pytest_invalid() {
    assert!(!is_valid_combination(Language::Java, Framework::Pytest));
}

#[test]
fn test_rust_native_valid() {
    assert!(is_valid_combination(Language::Rust, Framework::Native));
}

#[test]
fn test_rust_junit_invalid() {
    assert!(!is_valid_combination(Language::Rust, Framework::JUnit));
}

#[test]
fn test_validate_valid_combination() {
    assert!(validate_combination(Language::Java, Framework::JUnit).is_ok());
}

#[test]
fn test_validate_invalid_combination() {
    assert!(validate_combination(Language::Java, Framework::Jest).is_err());
}

#[test]
fn test_java_junit4_valid() {
    assert!(is_valid_combination(Language::Java, Framework::JUnit4));
}

#[test]
fn test_supported_frameworks_java() {
    let frameworks = supported_frameworks_for_language(Language::Java);
    assert_eq!(frameworks.len(), 3);
    assert!(frameworks.contains(&Framework::JUnit));
    assert!(frameworks.contains(&Framework::JUnit4));
    assert!(frameworks.contains(&Framework::TestNG));
}

#[test]
fn test_validity_table_exhaustive() {
    let languages = [
        Language::Java,
        Language::Rust,
        Language::Python,
        Language::JavaScript,
        Language::TypeScript,
    ];
    let frameworks = [
        Framework::JUnit,
        Framework::JUnit4,
        Framework::TestNG,
        Framework::Native,
        Framework::Jest,
        Framework::Pytest,
    ];
    for &l in &languages {
        for &f in &frameworks {
            let expected = match (l, f) {
                (Language::Java, Framework::JUnit) => true,
                (Language::Java, Framework::JUnit4) => true,
                (Language::Java, Framework::TestNG) => true,
                (Language::Rust, Framework::Native) => true,
                (Language::Python, Framework::Pytest) => true,
                (Language::JavaScript, Framework::Jest) => true,
                (Language::TypeScript, Framework::Jest) => true,
                _ => false,
            };
            assert_eq!(is_valid_combination(l, f), expected);
            assert_eq!(validate_combination(l, f).is_ok(), expected);
        }
    }
}

#[test]
fn test_invalid_combination_message() {
    let err = validate_combination(Language::Java, Framework::Pytest).unwrap_err();
    match &err {
        TestsmithError::InvalidCombination { language, framework } => {
            assert_eq!(language, "Java");
            assert_eq!(framework, "Pytest");
        }
        other => panic!("unexpected error: {:?}", other),
    }
    assert_eq!(
        err.message(),
        "Invalid combination: language 'Java' does not support framework 'Pytest'"
    );
}
