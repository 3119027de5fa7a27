use testsmith::cache::{get_cache_entry, is_cache_stale, update_cache_entry, ProjectCache};
use testsmith::cli::{Framework, StructureType};
use testsmith::file_ops::FileSystem;

#[test]
fn test_update_and_get_cache_entry() {
    let mut cache = ProjectCache::new();
    let root = "/project/root";

    update_cache_entry(&mut cache, root, "java", &Framework::JUnit4, &StructureType::Gradle)
        .unwrap();

    let entry = get_cache_entry(&cache, root, "java").unwrap();
    assert_eq!(entry.framework, "JUnit4");
    assert_eq!(entry.structure, "Gradle");
}

#[test]
fn test_multiple_languages_same_project() {
    let mut cache = ProjectCache::new();
    let root = "/project/root";

    update_cache_entry(&mut cache, root, "java", &Framework::JUnit4, &StructureType::Gradle)
        .unwrap();
    update_cache_entry(&mut cache, root, "rust", &Framework::Native, &StructureType::SameFile)
        .unwrap();

    assert!(get_cache_entry(&cache, root, "java").is_some());
    assert!(get_cache_entry(&cache, root, "rust").is_some());
}

#[test]
fn test_is_cache_stale() {
    let mut fs = FileSystem::new_memory();
    fs.write_file_new("/proj/build.gradle", "dependencies {}").unwrap();
    fs.set_mtime("/proj/build.gradle", 1000);

    // A cache stamp from before the file's modification time is stale.
    assert!(is_cache_stale(&fs, "/proj", 990, &vec!["build.gradle"]));

    // A stamp from after it is not.
    assert!(!is_cache_stale(&fs, "/proj", 1010, &vec!["build.gradle"]));
}

#[test]
fn test_stale_boundary_is_strict() {
    let mut fs = FileSystem::new_memory();
    fs.set_mtime("/proj/pom.xml", 1000);
    // Equal times do not make the entry stale; only strictly newer
    // marker files do.
    assert!(!is_cache_stale(&fs, "/proj", 1000, &vec!["pom.xml"]));
    assert!(is_cache_stale(&fs, "/proj", 999, &vec!["pom.xml"]));
}

#[test]
fn test_absent_markers_never_stale() {
    let fs = FileSystem::new_memory();
    assert!(!is_cache_stale(&fs, "/proj", 0, &vec!["pom.xml", "build.gradle"]));
}

#[test]
fn test_one_stale_marker_of_many_suffices() {
    let mut fs = FileSystem::new_memory();
    fs.set_mtime("/proj/pom.xml", 10);
    fs.set_mtime("/proj/build.gradle", 5000);
    assert!(is_cache_stale(&fs, "/proj", 100, &vec!["pom.xml", "build.gradle"]));
}

#[test]
fn test_cache_update_replaces_entry() {
    let mut cache = ProjectCache::new();
    let root = "/project/root";
    update_cache_entry(&mut cache, root, "java", &Framework::JUnit, &StructureType::Maven)
        .unwrap();
    update_cache_entry(&mut cache, root, "java", &Framework::TestNG, &StructureType::Gradle)
        .unwrap();
    let entry = get_cache_entry(&cache, root, "java").unwrap();
    assert_eq!(entry.framework, "TestNG");
    assert_eq!(entry.structure, "Gradle");
}
