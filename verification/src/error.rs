//! The library's error type. Every failure of the resolution pipeline
//! is one of these variants; the contracts of the pipeline functions
//! say exactly which variant comes on which input.
use vstd::prelude::*;

use crate::text::str_concat;

verus! {

#[derive(Debug)]
pub enum TestsmithError {
    FileNotFound { path: String },
    InvalidPath { path: String, reason: String },
    UnsupportedLanguage { language: String },
    UnsupportedFramework { framework: String },
    InvalidCombination { language: String, framework: String },
    UnsupportedStructure { structure: String },
    FileReadError { path: String, reason: String },
    FileWriteError { path: String, reason: String },
    DirectoryCreateError { path: String, reason: String },
    PackageNameNotFound { path: String },
    ClassNameExtractionError { path: String, reason: String },
    TestFileAlreadyExists { path: String },
    InvalidSourceFile { reason: String },
    ConfigError { reason: String },
    CacheError { reason: String },
    IoError { reason: String },
    Unknown { reason: String },
}

/// The human-readable description of an error, as `message` writes it.
pub open spec fn message_seq(e: TestsmithError) -> Seq<char> {
    match e {
        TestsmithError::FileNotFound { path } => "File not found: "@ + path@,
        TestsmithError::InvalidPath { path, reason } => "Invalid file path: "@ + path@ + " - "@
            + reason@,
        TestsmithError::UnsupportedLanguage { language } => "Unsupported language: "@ + language@,
        TestsmithError::UnsupportedFramework { framework } => "Unsupported framework: "@
            + framework@,
        TestsmithError::InvalidCombination { language, framework } => "Invalid combination: language '"@
            + language@ + "' does not support framework '"@ + framework@ + "'"@,
        TestsmithError::UnsupportedStructure { structure } => "Unsupported project structure: "@
            + structure@,
        TestsmithError::FileReadError { path, reason } => "Failed to read file "@ + path@ + ": "@
            + reason@,
        TestsmithError::FileWriteError { path, reason } => "Failed to write file "@ + path@ + ": "@
            + reason@,
        TestsmithError::DirectoryCreateError { path, reason } => "Failed to create directory "@
            + path@ + ": "@ + reason@,
        TestsmithError::PackageNameNotFound { path } => "Package name not found in source file "@
            + path@,
        TestsmithError::ClassNameExtractionError { path, reason } => "Class name extraction failed for "@
            + path@ + ": "@ + reason@,
        TestsmithError::TestFileAlreadyExists { path } => "Test file already exists: "@ + path@,
        TestsmithError::InvalidSourceFile { reason } => "Invalid source file: "@ + reason@,
        TestsmithError::ConfigError { reason } => "Configuration error: "@ + reason@,
        TestsmithError::CacheError { reason } => "Cache error: "@ + reason@,
        TestsmithError::IoError { reason } => "IO error: "@ + reason@,
        TestsmithError::Unknown { reason } => "Unknown error: "@ + reason@,
    }
}

impl TestsmithError {
    /// The error's description, built from its variant and fields.
    pub fn message(&self) -> (r: String)
        ensures
            r@ == message_seq(*self),
    {
        match self {
            TestsmithError::FileNotFound { path } => str_concat("File not found: ", path.as_str()),
            TestsmithError::InvalidPath { path, reason } => {
                let a = str_concat("Invalid file path: ", path.as_str());
                let b = str_concat(a.as_str(), " - ");
                str_concat(b.as_str(), reason.as_str())
            },
            TestsmithError::UnsupportedLanguage { language } => {
                str_concat("Unsupported language: ", language.as_str())
            },
            TestsmithError::UnsupportedFramework { framework } => {
                str_concat("Unsupported framework: ", framework.as_str())
            },
            TestsmithError::InvalidCombination { language, framework } => {
                let a = str_concat("Invalid combination: language '", language.as_str());
                let b = str_concat(a.as_str(), "' does not support framework '");
                let c = str_concat(b.as_str(), framework.as_str());
                str_concat(c.as_str(), "'")
            },
            TestsmithError::UnsupportedStructure { structure } => {
                str_concat("Unsupported project structure: ", structure.as_str())
            },
            TestsmithError::FileReadError { path, reason } => {
                let a = str_concat("Failed to read file ", path.as_str());
                let b = str_concat(a.as_str(), ": ");
                str_concat(b.as_str(), reason.as_str())
            },
            TestsmithError::FileWriteError { path, reason } => {
                let a = str_concat("Failed to write file ", path.as_str());
                let b = str_concat(a.as_str(), ": ");
                str_concat(b.as_str(), reason.as_str())
            },
            TestsmithError::DirectoryCreateError { path, reason } => {
                let a = str_concat("Failed to create directory ", path.as_str());
                let b = str_concat(a.as_str(), ": ");
                str_concat(b.as_str(), reason.as_str())
            },
            TestsmithError::PackageNameNotFound { path } => {
                str_concat("Package name not found in source file ", path.as_str())
            },
            TestsmithError::ClassNameExtractionError { path, reason } => {
                let a = str_concat("Class name extraction failed for ", path.as_str());
                let b = str_concat(a.as_str(), ": ");
                str_concat(b.as_str(), reason.as_str())
            },
            TestsmithError::TestFileAlreadyExists { path } => {
                str_concat("Test file already exists: ", path.as_str())
            },
            TestsmithError::InvalidSourceFile { reason } => {
                str_concat("Invalid source file: ", reason.as_str())
            },
            TestsmithError::ConfigError { reason } => {
                str_concat("Configuration error: ", reason.as_str())
            },
            TestsmithError::CacheError { reason } => str_concat("Cache error: ", reason.as_str()),
            TestsmithError::IoError { reason } => str_concat("IO error: ", reason.as_str()),
            TestsmithError::Unknown { reason } => str_concat("Unknown error: ", reason.as_str()),
        }
    }
}

} // verus!
