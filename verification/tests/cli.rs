use testsmith::cli::{framework_from_host_name, framework_name, language_name, parse_framework,
    parse_structure, structure_from_host_name, structure_name, Framework, Language,
    StructureType};

#[test]
fn test_framework_names_round_trip() {
    let all = [
        Framework::JUnit,
        Framework::JUnit4,
        Framework::TestNG,
        Framework::Native,
        Framework::Jest,
        Framework::Pytest,
    ];
    for &f in &all {
        assert_eq!(parse_framework(framework_name(f)), Some(f));
    }
    assert_eq!(parse_framework("NotAFramework"), None);
}

#[test]
fn test_structure_names_round_trip() {
    let all = [
        StructureType::Maven,
        StructureType::SameFile,
        StructureType::Gradle,
        StructureType::Flat,
    ];
    for &s in &all {
        assert_eq!(parse_structure(structure_name(s)), Some(s));
    }
    assert_eq!(parse_structure("NotAStructure"), None);
}

#[test]
fn test_host_boundary_names() {
    assert_eq!(structure_from_host_name("maven"), Some(StructureType::Maven));
    assert_eq!(structure_from_host_name("same-file"), Some(StructureType::SameFile));
    assert_eq!(structure_from_host_name("gradle"), Some(StructureType::Gradle));
    assert_eq!(structure_from_host_name("flat"), Some(StructureType::Flat));
    assert_eq!(structure_from_host_name("bogus"), None);

    assert_eq!(framework_from_host_name("junit"), Some(Framework::JUnit));
    assert_eq!(framework_from_host_name("junit4"), Some(Framework::JUnit4));
    assert_eq!(framework_from_host_name("testng"), Some(Framework::TestNG));
    assert_eq!(framework_from_host_name("native"), Some(Framework::Native));
    assert_eq!(framework_from_host_name("jest"), Some(Framework::Jest));
    assert_eq!(framework_from_host_name("pytest"), Some(Framework::Pytest));
    assert_eq!(framework_from_host_name("bogus"), None);
}

#[test]
fn test_language_names() {
    assert_eq!(language_name(Language::Java), "Java");
    assert_eq!(language_name(Language::Rust), "Rust");
    assert_eq!(language_name(Language::Python), "Python");
    assert_eq!(language_name(Language::JavaScript), "JavaScript");
    assert_eq!(language_name(Language::TypeScript), "TypeScript");
}
