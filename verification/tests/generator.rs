use testsmith::cache::ProjectCache;
use testsmith::cli::{Framework, Language, StructureType};
use testsmith::error::TestsmithError;
use testsmith::file_ops::FileSystem;
use testsmith::generator::{auto_detect_structure, generate, GeneratorOptions};

fn default_options() -> GeneratorOptions {
    GeneratorOptions {
        structure: StructureType::Maven,
        language: None,
        framework: None,
        create: true,
        dry_run: false,
    }
}

#[test]
fn test_generate_nonexistent_source_file() {
    let mut fs = FileSystem::new_memory();
    let mut cache = ProjectCache::new();
    let options = GeneratorOptions {
        structure: StructureType::Maven,
        language: Some(Language::Java),
        framework: Some(Framework::JUnit),
        create: true,
        dry_run: false,
    };

    let result = generate(&mut fs, &mut cache, "nonexistent.java", options);
    assert!(result.is_err());
}

#[test]
fn test_detect_language_from_java_file() {
    let mut fs = FileSystem::new_memory();
    let mut cache = ProjectCache::new();
    let java_file = "/src/main/java/Foo.java";

    fs.write_file_new(java_file, "public class Foo {}").unwrap();

    let options = GeneratorOptions {
        structure: StructureType::Maven,
        language: None,
        framework: None,
        create: false,
        dry_run: false,
    };

    // The test file does not exist and creation is off, so the run
    // fails after resolving everything else.
    let result = generate(&mut fs, &mut cache, java_file, options);
    assert!(result.is_err());
}

#[test]
fn test_dry_run_does_not_create_file() {
    let mut fs = FileSystem::new_memory();
    let mut cache = ProjectCache::new();
    let java_file = "/src/main/java/Foo.java";

    fs.write_file_new(java_file, "package com.example;\n\npublic class Foo {}").unwrap();

    let options = GeneratorOptions {
        structure: StructureType::Maven,
        language: Some(Language::Java),
        framework: Some(Framework::JUnit),
        create: true,
        dry_run: true,
    };

    let result = generate(&mut fs, &mut cache, java_file, options);
    assert!(result.is_ok());

    let test_file_path = result.unwrap().test_file_path;
    assert!(!fs.file_exists(&test_file_path));
}

#[test]
fn test_scenario_maven_junit5_project() {
    let mut fs = FileSystem::new_memory();
    let mut cache = ProjectCache::new();
    fs.write_file_new(
        "/proj/pom.xml",
        "<project><dependency><groupId>org.junit.jupiter</groupId><artifactId>junit-jupiter</artifactId></dependency></project>",
    )
    .unwrap();
    let source = "/proj/src/main/java/com/example/Foo.java";
    fs.write_file_new(source, "package com.example;\n\npublic class Foo {}").unwrap();

    let result = generate(&mut fs, &mut cache, source, default_options()).unwrap();

    assert!(result.created);
    assert_eq!(result.test_file_path, "/proj/src/test/java/com/example/FooTest.java");
    let content = fs.read_file(&result.test_file_path).unwrap();
    assert!(content.contains("package com.example;"));
    assert!(content.contains("class FooTest"));
    // The JUnit 5 signature in the manifest won over the default.
    assert!(content.contains("import org.junit.jupiter.api.Test;"));
}

#[test]
fn test_scenario_rust_same_file_append() {
    let mut fs = FileSystem::new_memory();
    let mut cache = ProjectCache::new();
    fs.write_file_new("/proj/Cargo.toml", "[package]\nname = \"demo\"").unwrap();
    let source = "/proj/src/lib.rs";
    fs.write_file_new(source, "pub fn answer() -> u32 {\n    42\n}\n").unwrap();

    let result = generate(&mut fs, &mut cache, source, default_options()).unwrap();

    assert!(result.created);
    assert_eq!(result.test_file_path, source);
    let content = fs.read_file(source).unwrap();
    assert!(content.contains("pub fn answer"));
    assert!(content.contains("#[cfg(test)]"));
    assert!(content.contains("mod tests"));
    // The reported cursor line is the pre-existing line count (3)
    // plus the placeholder's line within the appended block (7).
    assert_eq!(result.line_number, 10);
}

#[test]
fn test_scenario_dry_run_leaves_content_unchanged() {
    let mut fs = FileSystem::new_memory();
    let mut cache = ProjectCache::new();
    fs.write_file_new("/proj/Cargo.toml", "[package]").unwrap();
    let source = "/proj/src/lib.rs";
    let original_content = "pub fn answer() -> u32 {\n    42\n}\n";
    fs.write_file_new(source, original_content).unwrap();

    let mut options = default_options();
    options.dry_run = true;
    let result = generate(&mut fs, &mut cache, source, options).unwrap();

    assert!(result.created);
    assert!(result.dry_run);
    assert_eq!(result.test_file_path, source);
    assert_eq!(result.line_number, 10);
    // The target file is untouched.
    assert_eq!(fs.read_file(source).unwrap(), original_content);
}

#[test]
fn test_scenario_explicit_invalid_combination_fails() {
    let mut fs = FileSystem::new_memory();
    let mut cache = ProjectCache::new();
    fs.write_file_new(
        "/proj/pom.xml",
        "<project><dependency><groupId>org.junit.jupiter</groupId></dependency></project>",
    )
    .unwrap();
    let source = "/proj/src/main/java/com/example/Foo.java";
    fs.write_file_new(source, "package com.example;\npublic class Foo {}").unwrap();

    let mut options = default_options();
    options.language = Some(Language::Java);
    options.framework = Some(Framework::Pytest);
    let err = generate(&mut fs, &mut cache, source, options).unwrap_err();
    assert!(matches!(err, TestsmithError::InvalidCombination { .. }));
}

#[test]
fn test_found_existing_test_module_reports_line() {
    let mut fs = FileSystem::new_memory();
    let mut cache = ProjectCache::new();
    fs.write_file_new("/proj/Cargo.toml", "[package]").unwrap();
    let source = "/proj/src/lib.rs";
    fs.write_file_new(
        source,
        "pub fn x() {}\n\n#[cfg(test)]\nmod tests {\n    #[test]\n    fn t() {}\n}\n",
    )
    .unwrap();

    let result = generate(&mut fs, &mut cache, source, default_options()).unwrap();
    assert!(!result.created);
    assert_eq!(result.test_file_path, source);
    // The first line holding a test attribute.
    assert_eq!(result.line_number, 5);
}

#[test]
fn test_found_existing_separate_test_file() {
    let mut fs = FileSystem::new_memory();
    let mut cache = ProjectCache::new();
    fs.write_file_new("/proj/pom.xml", "<project/>").unwrap();
    let source = "/proj/src/main/java/Foo.java";
    fs.write_file_new(source, "public class Foo {}").unwrap();
    fs.write_file_new(
        "/proj/src/test/java/FooTest.java",
        "public class FooTest {\n    // TODO: fill in\n}\n",
    )
    .unwrap();

    let mut options = default_options();
    options.language = Some(Language::Java);
    options.framework = Some(Framework::JUnit);
    let result = generate(&mut fs, &mut cache, source, options).unwrap();
    assert!(!result.created);
    assert_eq!(result.test_file_path, "/proj/src/test/java/FooTest.java");
    assert_eq!(result.line_number, 2);
}

#[test]
fn test_cached_framework_is_used_when_fresh() {
    let mut fs = FileSystem::new_memory();
    let mut cache = ProjectCache::new();
    // A Maven project whose manifest would detect as JUnit 5, but
    // whose fresh cache entry says JUnit 4.
    fs.write_file_new(
        "/proj/pom.xml",
        "<project><artifactId>junit-jupiter</artifactId></project>",
    )
    .unwrap();
    let source = "/proj/src/main/java/Foo.java";
    fs.write_file_new(source, "public class Foo {}").unwrap();

    testsmith::cache::update_cache_entry(
        &mut cache,
        "/proj",
        "Java",
        &Framework::JUnit4,
        &StructureType::Maven,
    )
    .unwrap();

    let result = generate(&mut fs, &mut cache, source, default_options()).unwrap();
    let content = fs.read_file(&result.test_file_path).unwrap();
    assert!(content.contains("import org.junit.Test;"));
}

#[test]
fn test_stale_cache_entry_falls_back_to_detection() {
    let mut fs = FileSystem::new_memory();
    let mut cache = ProjectCache::new();
    fs.write_file_new(
        "/proj/pom.xml",
        "<project><artifactId>junit-jupiter</artifactId></project>",
    )
    .unwrap();
    // The manifest changed long after any cache stamp this run could
    // have written.
    fs.set_mtime("/proj/pom.xml", u64::MAX);
    let source = "/proj/src/main/java/Foo.java";
    fs.write_file_new(source, "public class Foo {}").unwrap();

    testsmith::cache::update_cache_entry(
        &mut cache,
        "/proj",
        "Java",
        &Framework::JUnit4,
        &StructureType::Maven,
    )
    .unwrap();

    let result = generate(&mut fs, &mut cache, source, default_options()).unwrap();
    let content = fs.read_file(&result.test_file_path).unwrap();
    // Detection won: the JUnit 5 template was generated.
    assert!(content.contains("import org.junit.jupiter.api.Test;"));
}

#[test]
fn test_generate_updates_cache_for_root() {
    let mut fs = FileSystem::new_memory();
    let mut cache = ProjectCache::new();
    fs.write_file_new("/proj/Cargo.toml", "[package]").unwrap();
    let source = "/proj/src/lib.rs";
    fs.write_file_new(source, "pub fn x() {}\n").unwrap();

    generate(&mut fs, &mut cache, source, default_options()).unwrap();

    let entry = testsmith::cache::get_cache_entry(&cache, "/proj", "Rust").unwrap();
    assert_eq!(entry.framework, "Native");
    assert_eq!(entry.structure, "SameFile");
}

#[test]
fn test_no_create_flag_reports_missing_test() {
    let mut fs = FileSystem::new_memory();
    let mut cache = ProjectCache::new();
    let source = "/proj/src/main/java/Foo.java";
    fs.write_file_new(source, "public class Foo {}").unwrap();

    let mut options = default_options();
    options.language = Some(Language::Java);
    options.framework = Some(Framework::JUnit);
    options.create = false;
    let err = generate(&mut fs, &mut cache, source, options).unwrap_err();
    match err {
        TestsmithError::FileNotFound { path } => {
            assert_eq!(path, "/proj/src/test/java/FooTest.java")
        }
        other => panic!("unexpected error: {:?}", other),
    }
}

#[test]
fn test_stale_cached_structure_is_redetected() {
    let mut fs = FileSystem::new_memory();
    let mut cache = ProjectCache::new();
    fs.write_file_new("/proj/Cargo.toml", "[package]").unwrap();
    // The manifest is newer than the cache stamp below.
    fs.set_mtime("/proj/Cargo.toml", 5000);
    let source = "/proj/src/lib.rs";
    fs.write_file_new(source, "pub fn x() {}\n").unwrap();

    // A stale entry whose stored structure would send the run to the
    // directory-substitution strategy; staleness forces re-detection,
    // which yields the same-file layout for Rust.
    cache.put(
        "/proj",
        "Rust",
        testsmith::cache::LanguageCache {
            framework: "Native".to_string(),
            structure: "Flat".to_string(),
            last_used: 100,
        },
    );

    let result = generate(&mut fs, &mut cache, source, default_options()).unwrap();
    assert_eq!(result.test_file_path, source);
}

#[test]
fn test_unrecognized_cached_structure_is_a_miss() {
    let mut fs = FileSystem::new_memory();
    let mut cache = ProjectCache::new();
    fs.write_file_new("/proj/Cargo.toml", "[package]").unwrap();
    let source = "/proj/src/lib.rs";
    fs.write_file_new(source, "pub fn x() {}\n").unwrap();

    // A fresh entry whose stored structure no library version
    // writes: treated as a miss, so directory detection decides.
    cache.put(
        "/proj",
        "Rust",
        testsmith::cache::LanguageCache {
            framework: "Native".to_string(),
            structure: "SomethingElse".to_string(),
            last_used: u64::MAX,
        },
    );

    let result = generate(&mut fs, &mut cache, source, default_options()).unwrap();
    assert_eq!(result.test_file_path, source);
}

#[test]
fn test_explicit_structure_overrides_detection() {
    let mut fs = FileSystem::new_memory();
    let mut cache = ProjectCache::new();
    // A Rust project, but the caller explicitly asks for the
    // mirrored-directory layout; the non-default choice stands.
    fs.write_file_new("/proj/Cargo.toml", "[package]").unwrap();
    let source = "/proj/src/main/lib.rs";
    fs.write_file_new(source, "pub fn x() {}\n").unwrap();

    let mut options = default_options();
    options.structure = StructureType::Flat;
    options.framework = Some(Framework::Native);
    let result = generate(&mut fs, &mut cache, source, options).unwrap();
    // The directory-substitution strategy ran instead of the
    // same-file one.
    assert_eq!(result.test_file_path, "/proj/src/test/libTest.rs");
}

#[test]
fn test_unrecognized_cached_framework_is_a_miss() {
    let mut fs = FileSystem::new_memory();
    let mut cache = ProjectCache::new();
    fs.write_file_new(
        "/proj/pom.xml",
        "<project><artifactId>junit-jupiter</artifactId></project>",
    )
    .unwrap();
    let source = "/proj/src/main/java/Foo.java";
    fs.write_file_new(source, "public class Foo {}").unwrap();

    // A decayed entry whose stored framework no library version
    // writes: treated as a miss, so detection decides.
    cache.put(
        "/proj",
        "Java",
        testsmith::cache::LanguageCache {
            framework: "SomethingElse".to_string(),
            structure: "Maven".to_string(),
            last_used: u64::MAX,
        },
    );

    let result = generate(&mut fs, &mut cache, source, default_options()).unwrap();
    let content = fs.read_file(&result.test_file_path).unwrap();
    assert!(content.contains("import org.junit.jupiter.api.Test;"));
}

#[test]
fn test_auto_detect_structure_by_extension() {
    assert_eq!(auto_detect_structure("lib.rs"), StructureType::SameFile);
    assert_eq!(auto_detect_structure("Foo.java"), StructureType::Maven);
    assert_eq!(auto_detect_structure("Makefile"), StructureType::Maven);
}
