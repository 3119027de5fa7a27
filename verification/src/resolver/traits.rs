//! The strategy interface a structure kind's resolver satisfies. The
//! exact behaviour of each resolver is stated on its own (inherent)
//! methods, which these implementations forward to.
use vstd::prelude::*;

use crate::cli::Language;
use crate::error::TestsmithError;
use crate::file_ops::FileSystem;

verus! {

/// Resolves test file paths for one project structure kind.
pub trait StructureResolver {
    /// Given a source file path, determine the corresponding test
    /// file path.
    fn resolve_test_path(&self, fs: &FileSystem, source_path: &str, language: Language) -> Result<
        String,
        TestsmithError,
    >;

    /// Whether a path is a valid source file path for this structure.
    fn is_source_path(&self, path: &str) -> bool;

    /// Whether a path is a valid test file path for this structure.
    fn is_test_path(&self, path: &str) -> bool;

    /// The resolver's display name.
    fn name(&self) -> &'static str;
}

} // verus!
