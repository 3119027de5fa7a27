//! The native Rust template: an in-file test module appended to the
//! source file, and module-name extraction from the file name.
use vstd::prelude::*;

use crate::cli::{Framework, Language};
use crate::error::TestsmithError;
use crate::paths::{file_name_of, file_name_seq};
use crate::template::traits::{TemplateContext, TemplateGenerator};
use crate::text::{chars_of, string_of, trim_end_chars, trim_end_seq};
use vstd::string::StringExecFns;

verus! {

pub struct RustNativeTemplate;

/// What str::to_lowercase returns for the given text; the result
/// depends on the characters alone.
pub uninterp spec fn lower_of(s: Seq<char>) -> Seq<char>;

/// Relies on str::to_lowercase: the lowercase form of the text,
/// which depends on its characters alone; an empty text stays empty.
#[verifier::external_body]
fn lowercase(s: &str) -> (r: String)
    ensures
        r@ == lower_of(s@),
        s@.len() == 0 ==> r@.len() == 0,
{
    s.to_lowercase()
}

/// The in-file test-module skeleton appended for Rust sources: the
/// marker block with one placeholder test.
pub open spec fn spec_rust_native_content() -> Seq<char> {
    "#[cfg(test)]\nmod tests {\n    use super::*;\n\n    #[test]\n    fn test_example() {\n        // TODO: Implement test\n    }\n}\n"@
}

impl RustNativeTemplate {
    pub fn new() -> (r: Self) {
        RustNativeTemplate
    }

    /// The module name derived from the path's file name: the Rust
    /// extension stripped and the rest folded to lower case.
    pub fn extract_module_name(path: &str) -> (r: Result<String, TestsmithError>)
        ensures
            file_name_seq(path@) is None ==> (r matches Err(
                TestsmithError::ClassNameExtractionError { path: p, reason },
            ) && p@ == path@ && reason@ == "No filename found"@),
            file_name_seq(path@) matches Some(f) ==> (r matches Ok(s) && s@ == lower_of(
                trim_end_seq(f, ".rs"@),
            )),
    {
        let fname = match file_name_of(path) {
            Option::Some(f) => f,
            Option::None => {
                return Err(
                    TestsmithError::ClassNameExtractionError {
                        path: path.to_owned(),
                        reason: "No filename found".to_owned(),
                    },
                );
            },
        };
        let stripped = trim_end_chars(&fname, &chars_of(".rs"));
        let stripped_s = string_of(&stripped);
        Ok(lowercase(stripped_s.as_str()))
    }

    /// The exact in-file test-module skeleton; the context carries
    /// nothing it depends on.
    pub fn generate(&self, _context: &TemplateContext) -> (r: Result<String, TestsmithError>)
        ensures
            r matches Ok(s) && s@ == spec_rust_native_content(),
    {
        let s = String::from_str(
            "#[cfg(test)]\nmod tests {\n    use super::*;\n\n    #[test]\n    fn test_example() {\n        // TODO: Implement test\n    }\n}\n",
        );
        Ok(s)
    }

    pub fn name(&self) -> (r: &'static str)
        ensures
            r@ == "Rust Native"@,
    {
        "Rust Native"
    }
}

impl TemplateGenerator for RustNativeTemplate {
    fn generate(&self, context: &TemplateContext) -> Result<String, TestsmithError> {
        RustNativeTemplate::generate(self, context)
    }

    fn name(&self) -> &'static str {
        RustNativeTemplate::name(self)
    }

    fn language(&self) -> Language {
        Language::Rust
    }

    fn framework(&self) -> Framework {
        Framework::Native
    }
}

} // verus!
