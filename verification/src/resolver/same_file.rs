//! The identity strategy: tests live in the source file itself, so
//! the test path is the source path.
use vstd::prelude::*;

use crate::cli::Language;
use crate::error::TestsmithError;
use crate::file_ops::FileSystem;

verus! {

pub struct SameFileResolver;

impl SameFileResolver {
    pub fn new() -> (r: Self) {
        SameFileResolver
    }

    /// The test path equals the source path; a missing source file
    /// fails.
    pub fn resolve_test_path(&self, fs: &FileSystem, source_path: &str, _language: Language) -> (r:
        Result<String, TestsmithError>)
        ensures
            !fs.files().contains_key(source_path@) ==> (r matches Err(
                TestsmithError::FileNotFound { path },
            ) && path@ == source_path@),
            fs.files().contains_key(source_path@) ==> (r matches Ok(s) && s@ == source_path@),
    {
        if !fs.file_exists(source_path) {
            return Err(TestsmithError::FileNotFound { path: source_path.to_owned() });
        }
        Ok(source_path.to_owned())
    }

    /// This strategy does not distinguish source paths from test
    /// paths: every path qualifies.
    pub fn is_source_path(&self, _path: &str) -> (r: bool)
        ensures
            r,
    {
        true
    }

    /// This strategy does not distinguish source paths from test
    /// paths: every path qualifies.
    pub fn is_test_path(&self, _path: &str) -> (r: bool)
        ensures
            r,
    {
        true
    }

    pub fn name(&self) -> (r: &'static str)
        ensures
            r@ == "Same File"@,
    {
        "Same File"
    }
}

impl crate::resolver::traits::StructureResolver for SameFileResolver {
    fn resolve_test_path(&self, fs: &FileSystem, source_path: &str, language: Language) -> Result<
        String,
        TestsmithError,
    > {
        SameFileResolver::resolve_test_path(self, fs, source_path, language)
    }

    fn is_source_path(&self, path: &str) -> bool {
        SameFileResolver::is_source_path(self, path)
    }

    fn is_test_path(&self, path: &str) -> bool {
        SameFileResolver::is_test_path(self, path)
    }

    fn name(&self) -> &'static str {
        SameFileResolver::name(self)
    }
}

} // verus!
