//! Detects the test-layout convention of a project root from the
//! presence of conventional directories and build files.
use vstd::prelude::*;

use crate::cli::{Language, StructureType};
use crate::error::TestsmithError;
use crate::file_ops::FileSystem;
use crate::paths::{join_path, join_seq};

verus! {

/// The structure directory-presence heuristics decide for a Java
/// root: Maven layout when both source trees exist, else Gradle when
/// a Gradle build file exists, else Maven by default.
pub open spec fn spec_java_structure(fs: FileSystem, root: Seq<char>) -> StructureType {
    if fs.spec_path_exists(join_seq(root, "src/main/java"@)) && fs.spec_path_exists(
        join_seq(root, "src/test/java"@),
    ) {
        StructureType::Maven
    } else if fs.spec_path_exists(join_seq(root, "build.gradle"@)) || fs.spec_path_exists(
        join_seq(root, "build.gradle.kts"@),
    ) {
        StructureType::Gradle
    } else {
        StructureType::Maven
    }
}

/// The structure decided for a JavaScript or TypeScript root: a
/// conventional test directory yields Flat, else tests sit beside the
/// sources.
pub open spec fn spec_js_structure(fs: FileSystem, root: Seq<char>) -> StructureType {
    if fs.dirs().contains(join_seq(root, "__tests__"@)) || fs.dirs().contains(
        join_seq(root, "tests"@),
    ) || fs.dirs().contains(join_seq(root, "test"@)) {
        StructureType::Flat
    } else {
        StructureType::SameFile
    }
}

/// The structure decided for a Python root.
pub open spec fn spec_python_structure(fs: FileSystem, root: Seq<char>) -> StructureType {
    if fs.dirs().contains(join_seq(root, "tests"@)) || fs.dirs().contains(
        join_seq(root, "test"@),
    ) {
        StructureType::Flat
    } else {
        StructureType::SameFile
    }
}

/// The structure the directory-presence heuristics decide for any
/// language; Rust projects always keep tests with the sources.
pub open spec fn spec_detect_structure(fs: FileSystem, root: Seq<char>, language: Language) -> StructureType {
    match language {
        Language::Java => spec_java_structure(fs, root),
        Language::Rust => StructureType::SameFile,
        Language::JavaScript => spec_js_structure(fs, root),
        Language::TypeScript => spec_js_structure(fs, root),
        Language::Python => spec_python_structure(fs, root),
    }
}

fn detect_java_structure(fs: &FileSystem, project_root: &str) -> (r: Result<
    StructureType,
    TestsmithError,
>)
    ensures
        r == Ok::<StructureType, TestsmithError>(spec_java_structure(*fs, project_root@)),
{
    let main_dir = join_path(project_root, "src/main/java");
    let test_dir = join_path(project_root, "src/test/java");
    if fs.path_exists(main_dir.as_str()) && fs.path_exists(test_dir.as_str()) {
        return Ok(StructureType::Maven);
    }
    let build_gradle = join_path(project_root, "build.gradle");
    let build_gradle_kts = join_path(project_root, "build.gradle.kts");
    if fs.path_exists(build_gradle.as_str()) || fs.path_exists(build_gradle_kts.as_str()) {
        return Ok(StructureType::Gradle);
    }
    Ok(StructureType::Maven)
}

fn detect_rust_structure(fs: &FileSystem, project_root: &str) -> (r: Result<
    StructureType,
    TestsmithError,
>)
    ensures
        r == Ok::<StructureType, TestsmithError>(StructureType::SameFile),
{
    // A separate tests directory gets the same treatment as tests
    // kept in the source file.
    let tests_dir = join_path(project_root, "tests");
    if fs.dir_exists(tests_dir.as_str()) {
        return Ok(StructureType::SameFile);
    }
    Ok(StructureType::SameFile)
}

fn detect_js_structure(fs: &FileSystem, project_root: &str) -> (r: Result<
    StructureType,
    TestsmithError,
>)
    ensures
        r == Ok::<StructureType, TestsmithError>(spec_js_structure(*fs, project_root@)),
{
    let jest_dir = join_path(project_root, "__tests__");
    if fs.dir_exists(jest_dir.as_str()) {
        return Ok(StructureType::Flat);
    }
    let tests_dir = join_path(project_root, "tests");
    if fs.dir_exists(tests_dir.as_str()) {
        return Ok(StructureType::Flat);
    }
    let test_dir = join_path(project_root, "test");
    if fs.dir_exists(test_dir.as_str()) {
        return Ok(StructureType::Flat);
    }
    Ok(StructureType::SameFile)
}

fn detect_python_structure(fs: &FileSystem, project_root: &str) -> (r: Result<
    StructureType,
    TestsmithError,
>)
    ensures
        r == Ok::<StructureType, TestsmithError>(spec_python_structure(*fs, project_root@)),
{
    let tests_dir = join_path(project_root, "tests");
    if fs.dir_exists(tests_dir.as_str()) {
        return Ok(StructureType::Flat);
    }
    let test_dir = join_path(project_root, "test");
    if fs.dir_exists(test_dir.as_str()) {
        return Ok(StructureType::Flat);
    }
    Ok(StructureType::SameFile)
}

/// Decides the test-layout convention for the given root and
/// language from directory presence alone.
pub fn detect_structure(fs: &FileSystem, project_root: &str, language: Language) -> (r: Result<
    StructureType,
    TestsmithError,
>)
    ensures
        r == Ok::<StructureType, TestsmithError>(
            spec_detect_structure(*fs, project_root@, language),
        ),
{
    match language {
        Language::Java => detect_java_structure(fs, project_root),
        Language::Rust => detect_rust_structure(fs, project_root),
        Language::JavaScript => detect_js_structure(fs, project_root),
        Language::TypeScript => detect_js_structure(fs, project_root),
        Language::Python => detect_python_structure(fs, project_root),
    }
}

} // verus!
