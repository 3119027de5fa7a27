use testsmith::cli::{Framework, Language};
use testsmith::config::framework_detector::detect_framework;
use testsmith::file_ops::FileSystem;

const SRC: &str = "/proj/src/main/java/com/example/Foo.java";

#[test]
fn test_detect_rust_native() {
    let mut fs = FileSystem::new_memory();
    fs.write_file_new("/proj/Cargo.toml", "[package]\nname = \"demo\"").unwrap();
    fs.write_file_new("/proj/src/lib.rs", "").unwrap();

    let framework = detect_framework(&fs, "/proj/src/lib.rs", Language::Rust).unwrap();
    assert_eq!(framework, Some(Framework::Native));
}

#[test]
fn test_detect_java_junit5_maven() {
    let mut fs = FileSystem::new_memory();
    fs.write_file_new(
        "/proj/pom.xml",
        "<project>\n  <dependency>\n    <groupId>org.junit.jupiter</groupId>\n    <artifactId>junit-jupiter</artifactId>\n  </dependency>\n</project>",
    )
    .unwrap();

    let framework = detect_framework(&fs, SRC, Language::Java).unwrap();
    assert_eq!(framework, Some(Framework::JUnit));
}

#[test]
fn test_detect_java_junit4_maven() {
    let mut fs = FileSystem::new_memory();
    fs.write_file_new(
        "/proj/pom.xml",
        "<project>\n  <dependency>\n    <groupId>junit</groupId>\n    <artifactId>junit</artifactId>\n  </dependency>\n</project>",
    )
    .unwrap();

    let framework = detect_framework(&fs, SRC, Language::Java).unwrap();
    assert_eq!(framework, Some(Framework::JUnit4));
}

#[test]
fn test_detect_java_testng_maven() {
    let mut fs = FileSystem::new_memory();
    fs.write_file_new(
        "/proj/pom.xml",
        "<project>\n  <dependency>\n    <groupId>org.testng</groupId>\n    <artifactId>testng</artifactId>\n  </dependency>\n</project>",
    )
    .unwrap();

    let framework = detect_framework(&fs, SRC, Language::Java).unwrap();
    assert_eq!(framework, Some(Framework::TestNG));
}

#[test]
fn test_detect_java_junit_gradle() {
    let mut fs = FileSystem::new_memory();
    fs.write_file_new(
        "/proj/build.gradle",
        "dependencies {\n    testImplementation 'org.junit.jupiter:junit-jupiter'\n}",
    )
    .unwrap();

    let framework = detect_framework(&fs, SRC, Language::Java).unwrap();
    assert_eq!(framework, Some(Framework::JUnit));
}

#[test]
fn test_detect_junit4_gradle_test_suite_api() {
    let mut fs = FileSystem::new_memory();
    fs.write_file_new(
        "/proj/build.gradle",
        "testing {\n    suites {\n        test {\n            useJUnit('4.13.2')\n        }\n    }\n}",
    )
    .unwrap();

    let framework = detect_framework(&fs, SRC, Language::Java).unwrap();
    assert_eq!(framework, Some(Framework::JUnit4));
}

#[test]
fn test_detect_jest() {
    let mut fs = FileSystem::new_memory();
    fs.write_file_new(
        "/proj/package.json",
        "{\n  \"devDependencies\": {\n    \"jest\": \"^29.0.0\"\n  }\n}",
    )
    .unwrap();

    let framework = detect_framework(&fs, "/proj/src/app.js", Language::JavaScript).unwrap();
    assert_eq!(framework, Some(Framework::Jest));
}

#[test]
fn test_detect_nothing_without_root() {
    let fs = FileSystem::new_memory();
    let framework = detect_framework(&fs, "/proj/src/app.js", Language::JavaScript).unwrap();
    assert_eq!(framework, None);
}

#[test]
fn test_detect_python_always_none() {
    let mut fs = FileSystem::new_memory();
    fs.write_file_new("/proj/package.json", "{}").unwrap();
    let framework = detect_framework(&fs, "/proj/src/x.py", Language::Python).unwrap();
    assert_eq!(framework, None);
}
