//! The JUnit 4 template for Java: same extraction rules as the
//! JUnit 5 template, with the JUnit 4 imports and a public test
//! class.
use vstd::prelude::*;

use crate::cli::{Framework, Language};
use crate::error::TestsmithError;
use crate::file_ops::FileSystem;
use crate::paths::file_name_seq;
use crate::template::java_junit::{spec_class_name, spec_first_package, JavaJunitTemplate};
use crate::template::traits::{TemplateContext, TemplateGenerator};
use crate::text::lines_seq;

verus! {

pub struct JavaJunit4Template;

/// The generated JUnit 4 skeleton: an optional package declaration,
/// the framework imports, and a public test class named after the
/// source class, holding one placeholder test method.
pub open spec fn spec_junit4_content(pkg: Option<Seq<char>>, class_name: Option<Seq<char>>) -> Seq<
    char,
> {
    let pkg_part = match pkg {
        Option::Some(p) => "package "@ + p + ";\n\n"@,
        Option::None => Seq::<char>::empty(),
    };
    let cls = match class_name {
        Option::Some(c) => c,
        Option::None => "Example"@,
    };
    pkg_part + "import org.junit.Test;\nimport static org.junit.Assert.*;\n\npublic class "@
        + cls
        + "Test {\n    @Test\n    public void testExample() {\n        // TODO: Implement test\n    }\n}\n"@
}

impl JavaJunit4Template {
    pub fn new() -> (r: Self) {
        JavaJunit4Template
    }

    /// The dotted name of the first package declaration in the
    /// source file; the same rule as the JUnit 5 template's.
    pub fn extract_package_name(fs: &FileSystem, source_path: &str) -> (r: Result<
        Option<String>,
        TestsmithError,
    >)
        ensures
            !fs.files().contains_key(source_path@) ==> (r matches Err(
                TestsmithError::FileReadError { path, reason: _ },
            ) && path@ == source_path@),
            fs.files().contains_key(source_path@) ==> (r matches Ok(o) && (match o {
                Option::Some(p) => spec_first_package(lines_seq(fs.files()[source_path@]))
                    == Option::Some(p@),
                Option::None => spec_first_package(lines_seq(fs.files()[source_path@])) is None,
            })),
    {
        JavaJunitTemplate::extract_package_name(fs, source_path)
    }

    /// The class name derived from the path's file name; the same
    /// rule as the JUnit 5 template's.
    pub fn extract_class_name(path: &str) -> (r: Result<String, TestsmithError>)
        ensures
            file_name_seq(path@) is None ==> (r matches Err(
                TestsmithError::ClassNameExtractionError { path: p, reason },
            ) && p@ == path@ && reason@ == "No filename found"@),
            file_name_seq(path@) matches Some(f) ==> (r matches Ok(s) && s@ == spec_class_name(
                f,
            )),
    {
        JavaJunitTemplate::extract_class_name(path)
    }

    /// The exact JUnit 4 skeleton for the context.
    pub fn generate(&self, context: &TemplateContext) -> (r: Result<String, TestsmithError>)
        ensures
            r matches Ok(s) && s@ == spec_junit4_content(
                match context.package_name {
                    Option::Some(ref p) => Option::Some(p@),
                    Option::None => Option::None,
                },
                match context.class_name {
                    Option::Some(ref c) => Option::Some(c@),
                    Option::None => Option::None,
                },
            ),
    {
        let mut s = String::new();
        match &context.package_name {
            Option::Some(p) => {
                s.append("package ");
                s.append(p.as_str());
                s.append(";\n\n");
            },
            Option::None => {},
        }
        s.append("import org.junit.Test;\nimport static org.junit.Assert.*;\n\npublic class ");
        match &context.class_name {
            Option::Some(c) => {
                s.append(c.as_str());
            },
            Option::None => {
                s.append("Example");
            },
        }
        s.append(
            "Test {\n    @Test\n    public void testExample() {\n        // TODO: Implement test\n    }\n}\n",
        );
        proof {
            assert(s@ =~= spec_junit4_content(
                match context.package_name {
                    Option::Some(ref p) => Option::Some(p@),
                    Option::None => Option::None,
                },
                match context.class_name {
                    Option::Some(ref c) => Option::Some(c@),
                    Option::None => Option::None,
                },
            ));
        }
        Ok(s)
    }

    pub fn name(&self) -> (r: &'static str)
        ensures
            r@ == "Java JUnit 4"@,
    {
        "Java JUnit 4"
    }
}

impl TemplateGenerator for JavaJunit4Template {
    fn generate(&self, context: &TemplateContext) -> Result<String, TestsmithError> {
        JavaJunit4Template::generate(self, context)
    }

    fn name(&self) -> &'static str {
        JavaJunit4Template::name(self)
    }

    fn language(&self) -> Language {
        Language::Java
    }

    fn framework(&self) -> Framework {
        Framework::JUnit4
    }
}

} // verus!
