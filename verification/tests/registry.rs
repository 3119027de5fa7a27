use testsmith::cli::{Framework, Language};
use testsmith::template::registry::{TemplateKind, TemplateRegistry};

#[test]
fn test_registry_contains_java_junit() {
    let registry = TemplateRegistry::new();
    assert!(registry.is_supported(Language::Java, Framework::JUnit));
}

#[test]
fn test_registry_contains_rust_native() {
    let registry = TemplateRegistry::new();
    assert!(registry.is_supported(Language::Rust, Framework::Native));
}

#[test]
fn test_registry_contains_java_junit4() {
    let registry = TemplateRegistry::new();
    assert!(registry.is_supported(Language::Java, Framework::JUnit4));
}

#[test]
fn test_registry_get_java_junit() {
    let registry = TemplateRegistry::new();
    let generator = registry.get_generator(Language::Java, Framework::JUnit);
    assert!(generator.is_ok());
    assert_eq!(generator.unwrap().name(), "Java JUnit 5");
}

#[test]
fn test_registry_get_java_junit4() {
    let registry = TemplateRegistry::new();
    let generator = registry.get_generator(Language::Java, Framework::JUnit4);
    assert!(generator.is_ok());
    assert_eq!(generator.unwrap().name(), "Java JUnit 4");
}

#[test]
fn test_registry_unsupported_combination() {
    let registry = TemplateRegistry::new();
    let result = registry.get_generator(Language::Java, Framework::Native);
    assert!(result.is_err());
}

#[test]
fn test_registry_does_not_contain_unsupported() {
    let registry = TemplateRegistry::new();
    assert!(!registry.is_supported(Language::Python, Framework::Pytest));
}

#[test]
fn test_registry_register_overrides() {
    let mut registry = TemplateRegistry::new();
    registry.register(Language::Java, Framework::JUnit, TemplateKind::JavaJunit4);
    let generator = registry.get_generator(Language::Java, Framework::JUnit).unwrap();
    assert_eq!(generator.name(), "Java JUnit 4");
}
