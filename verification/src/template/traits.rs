//! What a template generator consumes and the interface it offers.
use vstd::prelude::*;

use crate::cli::{Framework, Language};
use crate::error::TestsmithError;

verus! {

/// Everything a generator may need to produce skeleton test content.
/// Immutable once built, except through the explicit `with`
/// extensions.
pub struct TemplateContext {
    /// Path to the source file.
    pub source_file_path: String,
    /// Path where the test content goes.
    pub test_file_path: String,
    /// Programming language.
    pub language: Language,
    /// Test framework to use.
    pub framework: Framework,
    /// Class or module name, extracted from the file name.
    pub class_name: Option<String>,
    /// Package name (for Java).
    pub package_name: Option<String>,
    /// Module path (for Rust).
    pub module_name: Option<String>,
}

impl TemplateContext {
    pub fn new(
        source_file_path: String,
        test_file_path: String,
        language: Language,
        framework: Framework,
    ) -> (r: TemplateContext)
        ensures
            r.source_file_path == source_file_path,
            r.test_file_path == test_file_path,
            r.language == language,
            r.framework == framework,
            r.class_name is None,
            r.package_name is None,
            r.module_name is None,
    {
        TemplateContext {
            source_file_path,
            test_file_path,
            language,
            framework,
            class_name: None,
            package_name: None,
            module_name: None,
        }
    }

    pub fn with_class_name(self, class_name: String) -> (r: TemplateContext)
        ensures
            r == (TemplateContext { class_name: Some(class_name), ..self }),
    {
        TemplateContext { class_name: Some(class_name), ..self }
    }

    pub fn with_package_name(self, package_name: String) -> (r: TemplateContext)
        ensures
            r == (TemplateContext { package_name: Some(package_name), ..self }),
    {
        TemplateContext { package_name: Some(package_name), ..self }
    }

    pub fn with_module_path(self, name: String) -> (r: TemplateContext)
        ensures
            r == (TemplateContext { module_name: Some(name), ..self }),
    {
        TemplateContext { module_name: Some(name), ..self }
    }
}

/// Generates test file content. The exact content each generator
/// produces is stated on its own (inherent) `generate`, which these
/// implementations forward to.
pub trait TemplateGenerator {
    /// The skeleton test content for the given context.
    fn generate(&self, context: &TemplateContext) -> Result<String, TestsmithError>;

    /// The generator's display name.
    fn name(&self) -> &'static str;

    /// The language this generator targets.
    fn language(&self) -> Language;

    /// The framework this generator targets.
    fn framework(&self) -> Framework;
}

} // verus!
