//! The caller-facing option types: the supported languages, test
//! frameworks and project structures, the option record handed to the
//! pipeline, and the string encodings used by the cache and by hosts.
use vstd::prelude::*;

use crate::text::str_eq;

verus! {

#[derive(Clone, Copy, PartialEq, Eq, Structural, Debug, Hash)]
pub enum StructureType {
    Maven,
    SameFile,
    Gradle,
    Flat,
}

#[derive(Clone, Copy, PartialEq, Eq, Structural, Debug, Hash)]
pub enum Language {
    Java,
    Rust,
    Python,
    JavaScript,
    TypeScript,
}

#[derive(Clone, Copy, PartialEq, Eq, Structural, Debug, Hash)]
pub enum Framework {
    JUnit,
    JUnit4,
    TestNG,
    Native,
    Jest,
    Pytest,
}

/// The command-line surface: one source file and the optional
/// overrides and flags. Argument parsing itself lives outside the
/// library; this is the parsed record.
pub struct Cli {
    pub source_file: String,
    pub structure: Option<StructureType>,
    pub language: Option<Language>,
    pub framework: Option<Framework>,
    pub create: bool,
    pub dry_run: bool,
}

pub open spec fn spec_language_name(l: Language) -> Seq<char> {
    match l {
        Language::Java => "Java"@,
        Language::Rust => "Rust"@,
        Language::Python => "Python"@,
        Language::JavaScript => "JavaScript"@,
        Language::TypeScript => "TypeScript"@,
    }
}

/// The stable name under which a language is keyed in the cache.
pub fn language_name(l: Language) -> (r: &'static str)
    ensures
        r@ == spec_language_name(l),
{
    match l {
        Language::Java => "Java",
        Language::Rust => "Rust",
        Language::Python => "Python",
        Language::JavaScript => "JavaScript",
        Language::TypeScript => "TypeScript",
    }
}

pub open spec fn spec_framework_name(f: Framework) -> Seq<char> {
    match f {
        Framework::JUnit => "JUnit"@,
        Framework::JUnit4 => "JUnit4"@,
        Framework::TestNG => "TestNG"@,
        Framework::Native => "Native"@,
        Framework::Jest => "Jest"@,
        Framework::Pytest => "Pytest"@,
    }
}

/// The stable name under which a framework is stored in the cache.
pub fn framework_name(f: Framework) -> (r: &'static str)
    ensures
        r@ == spec_framework_name(f),
{
    match f {
        Framework::JUnit => "JUnit",
        Framework::JUnit4 => "JUnit4",
        Framework::TestNG => "TestNG",
        Framework::Native => "Native",
        Framework::Jest => "Jest",
        Framework::Pytest => "Pytest",
    }
}

pub open spec fn spec_structure_name(s: StructureType) -> Seq<char> {
    match s {
        StructureType::Maven => "Maven"@,
        StructureType::SameFile => "SameFile"@,
        StructureType::Gradle => "Gradle"@,
        StructureType::Flat => "Flat"@,
    }
}

/// The stable name under which a structure is stored in the cache.
pub fn structure_name(s: StructureType) -> (r: &'static str)
    ensures
        r@ == spec_structure_name(s),
{
    match s {
        StructureType::Maven => "Maven",
        StructureType::SameFile => "SameFile",
        StructureType::Gradle => "Gradle",
        StructureType::Flat => "Flat",
    }
}

pub open spec fn spec_parse_framework(s: Seq<char>) -> Option<Framework> {
    if s == "JUnit"@ {
        Option::Some(Framework::JUnit)
    } else if s == "JUnit4"@ {
        Option::Some(Framework::JUnit4)
    } else if s == "TestNG"@ {
        Option::Some(Framework::TestNG)
    } else if s == "Native"@ {
        Option::Some(Framework::Native)
    } else if s == "Jest"@ {
        Option::Some(Framework::Jest)
    } else if s == "Pytest"@ {
        Option::Some(Framework::Pytest)
    } else {
        Option::None
    }
}

/// Decodes a stored framework name; an unrecognized string yields
/// `None`, which the resolution treats as a cache miss.
pub fn parse_framework(s: &str) -> (r: Option<Framework>)
    ensures
        r == spec_parse_framework(s@),
{
    if str_eq(s, "JUnit") {
        Some(Framework::JUnit)
    } else if str_eq(s, "JUnit4") {
        Some(Framework::JUnit4)
    } else if str_eq(s, "TestNG") {
        Some(Framework::TestNG)
    } else if str_eq(s, "Native") {
        Some(Framework::Native)
    } else if str_eq(s, "Jest") {
        Some(Framework::Jest)
    } else if str_eq(s, "Pytest") {
        Some(Framework::Pytest)
    } else {
        None
    }
}

pub open spec fn spec_parse_structure(s: Seq<char>) -> Option<StructureType> {
    if s == "Maven"@ {
        Option::Some(StructureType::Maven)
    } else if s == "Gradle"@ {
        Option::Some(StructureType::Gradle)
    } else if s == "SameFile"@ {
        Option::Some(StructureType::SameFile)
    } else if s == "Flat"@ {
        Option::Some(StructureType::Flat)
    } else {
        Option::None
    }
}

/// Decodes a stored structure name; an unrecognized string yields
/// `None`, which the resolution treats as a cache miss.
pub fn parse_structure(s: &str) -> (r: Option<StructureType>)
    ensures
        r == spec_parse_structure(s@),
{
    if str_eq(s, "Maven") {
        Some(StructureType::Maven)
    } else if str_eq(s, "Gradle") {
        Some(StructureType::Gradle)
    } else if str_eq(s, "SameFile") {
        Some(StructureType::SameFile)
    } else if str_eq(s, "Flat") {
        Some(StructureType::Flat)
    } else {
        None
    }
}

pub open spec fn spec_structure_from_host_name(s: Seq<char>) -> Option<StructureType> {
    if s == "maven"@ {
        Option::Some(StructureType::Maven)
    } else if s == "gradle"@ {
        Option::Some(StructureType::Gradle)
    } else if s == "flat"@ {
        Option::Some(StructureType::Flat)
    } else if s == "same-file"@ {
        Option::Some(StructureType::SameFile)
    } else {
        Option::None
    }
}

/// Decodes the structure name a host process passes across the
/// embedding boundary.
pub fn structure_from_host_name(s: &str) -> (r: Option<StructureType>)
    ensures
        r == spec_structure_from_host_name(s@),
{
    if str_eq(s, "maven") {
        Some(StructureType::Maven)
    } else if str_eq(s, "gradle") {
        Some(StructureType::Gradle)
    } else if str_eq(s, "flat") {
        Some(StructureType::Flat)
    } else if str_eq(s, "same-file") {
        Some(StructureType::SameFile)
    } else {
        None
    }
}

pub open spec fn spec_framework_from_host_name(s: Seq<char>) -> Option<Framework> {
    if s == "junit"@ {
        Option::Some(Framework::JUnit)
    } else if s == "junit4"@ {
        Option::Some(Framework::JUnit4)
    } else if s == "testng"@ {
        Option::Some(Framework::TestNG)
    } else if s == "native"@ {
        Option::Some(Framework::Native)
    } else if s == "jest"@ {
        Option::Some(Framework::Jest)
    } else if s == "pytest"@ {
        Option::Some(Framework::Pytest)
    } else {
        Option::None
    }
}

/// Decodes the framework name a host process passes across the
/// embedding boundary; "auto" is handled by the caller as "unset".
pub fn framework_from_host_name(s: &str) -> (r: Option<Framework>)
    ensures
        r == spec_framework_from_host_name(s@),
{
    if str_eq(s, "junit") {
        Some(Framework::JUnit)
    } else if str_eq(s, "junit4") {
        Some(Framework::JUnit4)
    } else if str_eq(s, "testng") {
        Some(Framework::TestNG)
    } else if str_eq(s, "native") {
        Some(Framework::Native)
    } else if str_eq(s, "jest") {
        Some(Framework::Jest)
    } else if str_eq(s, "pytest") {
        Some(Framework::Pytest)
    } else {
        None
    }
}

} // verus!
