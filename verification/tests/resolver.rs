use testsmith::cli::Language;
use testsmith::error::TestsmithError;
use testsmith::file_ops::FileSystem;
use testsmith::resolver::maven::MavenResolver;
use testsmith::resolver::same_file::SameFileResolver;

#[test]
fn test_transform_java_path() {
    let result = MavenResolver::transform_path("src/main/java/com/example/Foo.java", Language::Java);
    assert!(result.is_ok());
    let test_path = result.unwrap();
    assert!(test_path.contains("src/test"));
    assert!(test_path.ends_with("FooTest.java"));
}

#[test]
fn test_transform_path_preserves_package() {
    let result =
        MavenResolver::transform_path("src/main/java/com/example/nested/Foo.java", Language::Java);
    assert!(result.is_ok());
    let test_path = result.unwrap();
    assert!(test_path.contains("com/example/nested"));
    assert!(test_path.ends_with("FooTest.java"));
}

#[test]
fn test_transform_invalid_path_no_src_main() {
    let result = MavenResolver::transform_path("src/Foo.java", Language::Java);
    assert!(result.is_err());
}

#[test]
fn test_is_source_path() {
    let resolver = MavenResolver::new();
    assert!(resolver.is_source_path("src/main/java/Foo.java"));
    assert!(!resolver.is_source_path("src/test/java/Foo.java"));
}

#[test]
fn test_is_test_path() {
    let resolver = MavenResolver::new();
    assert!(resolver.is_test_path("src/test/java/FooTest.java"));
    assert!(!resolver.is_test_path("src/main/java/Foo.java"));
    assert!(!resolver.is_test_path("src/test/java/Foo.java"));
}

#[test]
fn maven_test_resolver_name() {
    let resolver = MavenResolver::new();
    assert_eq!(resolver.name(), "Maven");
}

#[test]
fn test_same_file_returns_same_path() {
    let resolver = SameFileResolver::new();
    let source = "src/lib.rs";
    assert!(resolver.is_source_path(source));
    assert!(resolver.is_test_path(source));
}

#[test]
fn same_file_test_resolver_name() {
    let resolver = SameFileResolver::new();
    assert_eq!(resolver.name(), "Same File");
}

#[test]
fn test_transform_cleans_dot_segments() {
    // The transform runs through the path cleanup, so redundant
    // segments vanish from the result.
    let result = MavenResolver::transform_path("a/../src/./main/Foo.java", Language::Java);
    assert_eq!(result.unwrap(), "src/test/FooTest.java");
}

#[test]
fn test_transform_exact_result() {
    let result = MavenResolver::transform_path("src/main/java/com/example/Foo.java", Language::Java);
    assert_eq!(result.unwrap(), "src/test/java/com/example/FooTest.java");
}

#[test]
fn test_transform_no_extension_appends_suffix() {
    let result = MavenResolver::transform_path("src/main/java/Foo", Language::Java);
    assert_eq!(result.unwrap(), "src/test/java/FooTest");
}

#[test]
fn test_transform_error_reason() {
    let err = MavenResolver::transform_path("lib/Foo.java", Language::Java).unwrap_err();
    match err {
        TestsmithError::InvalidPath { path, reason } => {
            assert_eq!(path, "lib/Foo.java");
            assert_eq!(reason, "Path does not contain 'src/main' directory");
        }
        other => panic!("unexpected error: {:?}", other),
    }
}

#[test]
fn test_resolve_test_path_requires_source_file() {
    let fs = FileSystem::new_memory();
    let resolver = MavenResolver::new();
    let err = resolver
        .resolve_test_path(&fs, "src/main/java/Foo.java", Language::Java)
        .unwrap_err();
    assert!(matches!(err, TestsmithError::FileNotFound { .. }));

    let same = SameFileResolver::new();
    let err = same.resolve_test_path(&fs, "src/lib.rs", Language::Rust).unwrap_err();
    assert!(matches!(err, TestsmithError::FileNotFound { .. }));
}

#[test]
fn test_same_file_resolves_to_source() {
    let mut fs = FileSystem::new_memory();
    fs.write_file_new("src/lib.rs", "pub fn x() {}").unwrap();
    let same = SameFileResolver::new();
    let path = same.resolve_test_path(&fs, "src/lib.rs", Language::Rust).unwrap();
    assert_eq!(path, "src/lib.rs");
}
