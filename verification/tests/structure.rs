use testsmith::cli::{Language, StructureType};
use testsmith::config::structure::get_structure_info;
use testsmith::config::structure_detector::detect_structure;
use testsmith::file_ops::FileSystem;

#[test]
fn test_maven_structure_info() {
    let info = get_structure_info(StructureType::Maven);
    assert_eq!(info.name, "Maven");
}

#[test]
fn test_same_file_structure_info() {
    let info = get_structure_info(StructureType::SameFile);
    assert_eq!(info.name, "Same File");
}

#[test]
fn test_detect_java_maven_structure() {
    let mut fs = FileSystem::new_memory();
    fs.add_dir("/proj/src/main/java");
    fs.add_dir("/proj/src/test/java");

    let structure = detect_structure(&fs, "/proj", Language::Java).unwrap();
    assert_eq!(structure, StructureType::Maven);
}

#[test]
fn test_detect_java_gradle_structure() {
    let mut fs = FileSystem::new_memory();
    fs.write_file_new("/proj/build.gradle", "").unwrap();

    let structure = detect_structure(&fs, "/proj", Language::Java).unwrap();
    assert_eq!(structure, StructureType::Gradle);
}

#[test]
fn test_detect_java_default_maven() {
    let fs = FileSystem::new_memory();

    let structure = detect_structure(&fs, "/proj", Language::Java).unwrap();
    assert_eq!(structure, StructureType::Maven);
}

#[test]
fn test_detect_rust_same_file() {
    let fs = FileSystem::new_memory();

    let structure = detect_structure(&fs, "/proj", Language::Rust).unwrap();
    assert_eq!(structure, StructureType::SameFile);
}

#[test]
fn test_detect_js_tests_directory() {
    let mut fs = FileSystem::new_memory();
    fs.add_dir("/proj/__tests__");

    let structure = detect_structure(&fs, "/proj", Language::JavaScript).unwrap();
    assert_eq!(structure, StructureType::Flat);
}

#[test]
fn test_detect_js_test_directory() {
    let mut fs = FileSystem::new_memory();
    fs.add_dir("/proj/test");

    let structure = detect_structure(&fs, "/proj", Language::JavaScript).unwrap();
    assert_eq!(structure, StructureType::Flat);
}

#[test]
fn test_detect_js_same_file_default() {
    let fs = FileSystem::new_memory();

    let structure = detect_structure(&fs, "/proj", Language::JavaScript).unwrap();
    assert_eq!(structure, StructureType::SameFile);
}

#[test]
fn test_detect_python_tests_directory() {
    let mut fs = FileSystem::new_memory();
    fs.add_dir("/proj/tests");

    let structure = detect_structure(&fs, "/proj", Language::Python).unwrap();
    assert_eq!(structure, StructureType::Flat);
}

#[test]
fn test_detect_python_same_file_default() {
    let fs = FileSystem::new_memory();

    let structure = detect_structure(&fs, "/proj", Language::Python).unwrap();
    assert_eq!(structure, StructureType::SameFile);
}
