//! Detects the test framework from the content of the project's
//! manifest files (dependency signatures scanned as plain text).
use vstd::prelude::*;

use crate::cli::{Framework, Language};
use crate::error::TestsmithError;
use crate::file_ops::FileSystem;
use crate::paths::{join_path, join_seq};
use crate::text::{chars_of, contains_chars, contains_seq, strs_view};
use crate::config::project_root::{dir_has_marker, spec_root_from, spec_start_dir};

verus! {

/// The marker files this detector accepts as evidence of a project
/// root, for any language.
pub open spec fn spec_any_marker_names() -> Seq<Seq<char>> {
    seq!["Cargo.toml"@, "pom.xml"@, "build.gradle"@, "build.gradle.kts"@, "package.json"@]
}

/// The root this detector's own upward walk finds.
pub open spec fn spec_any_root(fs: FileSystem, path: Seq<char>) -> Option<Seq<char>> {
    match spec_start_dir(fs, path) {
        Option::None => Option::None,
        Option::Some(d) => spec_root_from(fs, d, spec_any_marker_names()),
    }
}

fn find_any_project_root(fs: &FileSystem, start_path: &str) -> (r: Option<String>)
    ensures
        match r {
            Option::Some(d) => spec_any_root(*fs, start_path@) == Option::Some(d@),
            Option::None => spec_any_root(*fs, start_path@) is None,
        },
{
    let mut markers: Vec<&'static str> = Vec::new();
    markers.push("Cargo.toml");
    markers.push("pom.xml");
    markers.push("build.gradle");
    markers.push("build.gradle.kts");
    markers.push("package.json");
    proof {
        assert(strs_view(markers@) =~= spec_any_marker_names());
    }
    let ghost ms = spec_any_marker_names();
    let mut current: String = if fs.dir_exists(start_path) {
        start_path.to_owned()
    } else {
        match crate::paths::parent_path(start_path) {
            Option::Some(p) => p,
            Option::None => {
                return None;
            },
        }
    };
    proof {
        assert(spec_any_root(*fs, start_path@) == spec_root_from(*fs, current@, ms));
    }
    loop
        invariant
            ms == spec_any_marker_names(),
            strs_view(markers@) == ms,
            spec_any_root(*fs, start_path@) == spec_root_from(*fs, current@, ms),
        decreases current@.len(),
    {
        if dir_has_marker(fs, current.as_str(), &markers) {
            return Some(current);
        }
        match crate::paths::parent_path(current.as_str()) {
            Option::Some(p) => {
                proof {
                    crate::text::lemma_last_index_of(current@, '/');
                    if current@.len() == 1 && current@[0] == '/' {
                        assert(current@ =~= seq!['/']);
                    }
                }
                current = p;
            },
            Option::None => {
                return None;
            },
        }
    }
}

/// The framework a Maven manifest's text implies: JUnit 5 signatures
/// win over JUnit 4 signatures, which win over TestNG signatures.
pub open spec fn spec_maven_framework(content: Seq<char>) -> Option<Framework> {
    if contains_seq(content, "junit-jupiter"@) || contains_seq(content, "org.junit.jupiter"@) {
        Option::Some(Framework::JUnit)
    } else if contains_seq(content, "junit:junit"@) || contains_seq(
        content,
        "junit</artifactId>"@,
    ) {
        Option::Some(Framework::JUnit4)
    } else if contains_seq(content, "testng"@) || contains_seq(content, "org.testng"@) {
        Option::Some(Framework::TestNG)
    } else {
        Option::None
    }
}

/// The framework a Gradle build file's text implies.
pub open spec fn spec_gradle_framework(content: Seq<char>) -> Option<Framework> {
    if contains_seq(content, "org.junit.jupiter"@) || contains_seq(content, "junit-jupiter"@) {
        Option::Some(Framework::JUnit)
    } else if contains_seq(content, "useJUnit('4"@) || contains_seq(content, "useJUnit(\"4"@) {
        Option::Some(Framework::JUnit4)
    } else if contains_seq(content, "junit:junit"@) && !contains_seq(
        content,
        "org.junit.jupiter"@,
    ) {
        Option::Some(Framework::JUnit4)
    } else if contains_seq(content, "org.testng"@) || contains_seq(content, "testng"@) {
        Option::Some(Framework::TestNG)
    } else {
        Option::None
    }
}

/// The framework a package manifest's text implies for JavaScript or
/// TypeScript.
pub open spec fn spec_js_framework(content: Seq<char>) -> Option<Framework> {
    if contains_seq(content, "jest"@) {
        Option::Some(Framework::Jest)
    } else {
        Option::None
    }
}

/// What a readable file at `p` contributes under the content rule
/// `f`; an unreadable file contributes nothing.
pub open spec fn spec_detect_in_file(
    fs: FileSystem,
    p: Seq<char>,
    rule: spec_fn(Seq<char>) -> Option<Framework>,
) -> Option<Framework> {
    if fs.files().contains_key(p) {
        rule(fs.files()[p])
    } else {
        Option::None
    }
}

fn detect_java_maven_framework(fs: &FileSystem, pom_xml: &str) -> (r: Option<Framework>)
    ensures
        r == spec_detect_in_file(*fs, pom_xml@, |c: Seq<char>| spec_maven_framework(c)),
{
    let content = match fs.read_file(pom_xml) {
        Ok(c) => c,
        Err(_) => {
            return None;
        },
    };
    let cv = chars_of(content.as_str());
    if contains_chars(&cv, &chars_of("junit-jupiter")) || contains_chars(
        &cv,
        &chars_of("org.junit.jupiter"),
    ) {
        Some(Framework::JUnit)
    } else if contains_chars(&cv, &chars_of("junit:junit")) || contains_chars(
        &cv,
        &chars_of("junit</artifactId>"),
    ) {
        Some(Framework::JUnit4)
    } else if contains_chars(&cv, &chars_of("testng")) || contains_chars(
        &cv,
        &chars_of("org.testng"),
    ) {
        Some(Framework::TestNG)
    } else {
        None
    }
}

fn detect_java_gradle_framework(fs: &FileSystem, build_gradle: &str) -> (r: Option<Framework>)
    ensures
        r == spec_detect_in_file(*fs, build_gradle@, |c: Seq<char>| spec_gradle_framework(c)),
{
    let content = match fs.read_file(build_gradle) {
        Ok(c) => c,
        Err(_) => {
            return None;
        },
    };
    let cv = chars_of(content.as_str());
    if contains_chars(&cv, &chars_of("org.junit.jupiter")) || contains_chars(
        &cv,
        &chars_of("junit-jupiter"),
    ) {
        Some(Framework::JUnit)
    } else if contains_chars(&cv, &chars_of("useJUnit('4")) || contains_chars(
        &cv,
        &chars_of("useJUnit(\"4"),
    ) {
        Some(Framework::JUnit4)
    } else if contains_chars(&cv, &chars_of("junit:junit")) && !contains_chars(
        &cv,
        &chars_of("org.junit.jupiter"),
    ) {
        Some(Framework::JUnit4)
    } else if contains_chars(&cv, &chars_of("org.testng")) || contains_chars(
        &cv,
        &chars_of("testng"),
    ) {
        Some(Framework::TestNG)
    } else {
        None
    }
}

fn detect_js_framework(fs: &FileSystem, package_json: &str) -> (r: Option<Framework>)
    ensures
        r == spec_detect_in_file(*fs, package_json@, |c: Seq<char>| spec_js_framework(c)),
{
    let content = match fs.read_file(package_json) {
        Ok(c) => c,
        Err(_) => {
            return None;
        },
    };
    let cv = chars_of(content.as_str());
    if contains_chars(&cv, &chars_of("jest")) {
        Some(Framework::Jest)
    } else {
        None
    }
}

/// What manifest-content detection yields for the whole project: the
/// nearest root's manifests are consulted in a fixed order.
pub open spec fn spec_detect_framework(fs: FileSystem, path: Seq<char>, language: Language) -> Option<
    Framework,
> {
    match spec_any_root(fs, path) {
        Option::None => Option::None,
        Option::Some(root) => match language {
            Language::Rust => {
                if fs.files().contains_key(join_seq(root, "Cargo.toml"@)) {
                    Option::Some(Framework::Native)
                } else {
                    Option::None
                }
            },
            Language::Java => {
                let pom = join_seq(root, "pom.xml"@);
                let bg = join_seq(root, "build.gradle"@);
                let bgk = join_seq(root, "build.gradle.kts"@);
                let from_pom = spec_detect_in_file(fs, pom, |c: Seq<char>| spec_maven_framework(c));
                let from_bg = spec_detect_in_file(
                    fs,
                    bg,
                    |c: Seq<char>| spec_gradle_framework(c),
                );
                let from_bgk = spec_detect_in_file(
                    fs,
                    bgk,
                    |c: Seq<char>| spec_gradle_framework(c),
                );
                if fs.spec_path_exists(pom) && from_pom is Some {
                    from_pom
                } else if fs.spec_path_exists(bg) && from_bg is Some {
                    from_bg
                } else if fs.spec_path_exists(bgk) && from_bgk is Some {
                    from_bgk
                } else {
                    Option::None
                }
            },
            Language::JavaScript => spec_detect_in_file(
                fs,
                join_seq(root, "package.json"@),
                |c: Seq<char>| spec_js_framework(c),
            ),
            Language::TypeScript => spec_detect_in_file(
                fs,
                join_seq(root, "package.json"@),
                |c: Seq<char>| spec_js_framework(c),
            ),
            Language::Python => Option::None,
        },
    }
}

/// Scans the nearest project root's manifests for framework
/// signatures; failures to read are recovered as "nothing detected".
pub fn detect_framework(fs: &FileSystem, source_path: &str, language: Language) -> (r: Result<
    Option<Framework>,
    TestsmithError,
>)
    ensures
        r == Ok::<Option<Framework>, TestsmithError>(
            spec_detect_framework(*fs, source_path@, language),
        ),
{
    let root = match find_any_project_root(fs, source_path) {
        Option::Some(root) => root,
        Option::None => {
            return Ok(None);
        },
    };
    match language {
        Language::Rust => {
            let cargo_toml = join_path(root.as_str(), "Cargo.toml");
            if fs.file_exists(cargo_toml.as_str()) {
                Ok(Some(Framework::Native))
            } else {
                Ok(None)
            }
        },
        Language::Java => {
            let pom_xml = join_path(root.as_str(), "pom.xml");
            if fs.path_exists(pom_xml.as_str()) {
                if let Some(framework) = detect_java_maven_framework(fs, pom_xml.as_str()) {
                    return Ok(Some(framework));
                }
            }
            let build_gradle = join_path(root.as_str(), "build.gradle");
            if fs.path_exists(build_gradle.as_str()) {
                if let Some(framework) = detect_java_gradle_framework(fs, build_gradle.as_str()) {
                    return Ok(Some(framework));
                }
            }
            let build_gradle_kts = join_path(root.as_str(), "build.gradle.kts");
            if fs.path_exists(build_gradle_kts.as_str()) {
                if let Some(framework) = detect_java_gradle_framework(
                    fs,
                    build_gradle_kts.as_str(),
                ) {
                    return Ok(Some(framework));
                }
            }
            Ok(None)
        },
        Language::JavaScript => {
            let package_json = join_path(root.as_str(), "package.json");
            Ok(detect_js_framework(fs, package_json.as_str()))
        },
        Language::TypeScript => {
            let package_json = join_path(root.as_str(), "package.json");
            Ok(detect_js_framework(fs, package_json.as_str()))
        },
        Language::Python => Ok(None),
    }
}

} // verus!
