//! Classifies a source file by its extension and gives each language
//! its default test framework.
use vstd::prelude::*;

use crate::cli::{Framework, Language};
use crate::error::TestsmithError;
use crate::paths::{extension_of, extension_seq};
use crate::text::{chars_of, eq_chars, string_of};

verus! {

/// The fixed table from file extension to language.
pub open spec fn spec_language_for_extension(e: Seq<char>) -> Option<Language> {
    if e == "java"@ {
        Option::Some(Language::Java)
    } else if e == "rs"@ {
        Option::Some(Language::Rust)
    } else if e == "py"@ {
        Option::Some(Language::Python)
    } else if e == "js"@ {
        Option::Some(Language::JavaScript)
    } else if e == "ts"@ {
        Option::Some(Language::TypeScript)
    } else {
        Option::None
    }
}

/// Detects the language from the file extension alone: a missing
/// extension and an unknown extension each fail with their own error,
/// and content never influences the answer.
pub fn detect_language(path: &str) -> (r: Result<Language, TestsmithError>)
    ensures
        extension_seq(path@) is None ==> (r matches Err(TestsmithError::InvalidSourceFile {
            reason,
        }) && reason@ == "File has no extension"@),
        extension_seq(path@) matches Some(e) ==> {
            &&& spec_language_for_extension(e) matches Some(l) ==> r == Ok::<
                Language,
                TestsmithError,
            >(l)
            &&& spec_language_for_extension(e) is None ==> (r matches Err(
                TestsmithError::UnsupportedLanguage { language },
            ) && language@ == e)
        },
{
    let ext = match extension_of(path) {
        Option::Some(e) => e,
        Option::None => {
            return Err(
                TestsmithError::InvalidSourceFile { reason: "File has no extension".to_owned() },
            );
        },
    };
    if eq_chars(&ext, &chars_of("java")) {
        Ok(Language::Java)
    } else if eq_chars(&ext, &chars_of("rs")) {
        Ok(Language::Rust)
    } else if eq_chars(&ext, &chars_of("py")) {
        Ok(Language::Python)
    } else if eq_chars(&ext, &chars_of("js")) {
        Ok(Language::JavaScript)
    } else if eq_chars(&ext, &chars_of("ts")) {
        Ok(Language::TypeScript)
    } else {
        Err(TestsmithError::UnsupportedLanguage { language: string_of(&ext) })
    }
}

/// The per-language fallback framework, always defined.
pub open spec fn spec_default_framework(language: Language) -> Framework {
    match language {
        Language::Java => Framework::JUnit,
        Language::Rust => Framework::Native,
        Language::Python => Framework::Pytest,
        Language::JavaScript => Framework::Jest,
        Language::TypeScript => Framework::Jest,
    }
}

/// The default framework a language falls back to when nothing else
/// decides.
pub fn default_framework_for_language(language: Language) -> (r: Framework)
    ensures
        r == spec_default_framework(language),
{
    match language {
        Language::Java => Framework::JUnit,
        Language::Rust => Framework::Native,
        Language::Python => Framework::Pytest,
        Language::JavaScript => Framework::Jest,
        Language::TypeScript => Framework::Jest,
    }
}

} // verus!
