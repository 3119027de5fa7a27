//! The validity table between languages and test frameworks.
use vstd::prelude::*;

use crate::cli::{spec_framework_name, spec_language_name, framework_name, language_name,
    Framework, Language};
use crate::error::TestsmithError;

verus! {

/// The fixed validity table: which frameworks a language supports.
pub open spec fn spec_valid_combination(language: Language, framework: Framework) -> bool {
    match language {
        Language::Java => framework == Framework::JUnit || framework == Framework::JUnit4
            || framework == Framework::TestNG,
        Language::Rust => framework == Framework::Native,
        Language::Python => framework == Framework::Pytest,
        Language::JavaScript => framework == Framework::Jest,
        Language::TypeScript => framework == Framework::Jest,
    }
}

/// Agrees exactly with the validity table.
pub fn is_valid_combination(language: Language, framework: Framework) -> (r: bool)
    ensures
        r == spec_valid_combination(language, framework),
{
    match language {
        Language::Java => matches!(
            framework,
            Framework::JUnit | Framework::JUnit4 | Framework::TestNG
        ),
        Language::Rust => matches!(framework, Framework::Native),
        Language::Python => matches!(framework, Framework::Pytest),
        Language::JavaScript => matches!(framework, Framework::Jest),
        Language::TypeScript => matches!(framework, Framework::Jest),
    }
}

/// Errs exactly on the pairs the validity table rejects.
pub fn validate_combination(language: Language, framework: Framework) -> (r: Result<
    (),
    TestsmithError,
>)
    ensures
        r is Ok <==> spec_valid_combination(language, framework),
        !spec_valid_combination(language, framework) ==> (r matches Err(
            TestsmithError::InvalidCombination { language: l, framework: f },
        ) && l@ == spec_language_name(language) && f@ == spec_framework_name(framework)),
{
    if is_valid_combination(language, framework) {
        Ok(())
    } else {
        Err(
            TestsmithError::InvalidCombination {
                language: language_name(language).to_owned(),
                framework: framework_name(framework).to_owned(),
            },
        )
    }
}

/// The frameworks a language supports, in the table's order.
pub open spec fn spec_supported_frameworks(language: Language) -> Seq<Framework> {
    match language {
        Language::Java => seq![Framework::JUnit, Framework::JUnit4, Framework::TestNG],
        Language::Rust => seq![Framework::Native],
        Language::Python => seq![Framework::Pytest],
        Language::JavaScript => seq![Framework::Jest],
        Language::TypeScript => seq![Framework::Jest],
    }
}

/// Lists exactly the frameworks the validity table allows for the
/// language.
pub fn supported_frameworks_for_language(language: Language) -> (r: Vec<Framework>)
    ensures
        r@ == spec_supported_frameworks(language),
        forall|i: int|
            0 <= i < r@.len() ==> spec_valid_combination(language, #[trigger] r@[i]),
{
    let mut v: Vec<Framework> = Vec::new();
    match language {
        Language::Java => {
            v.push(Framework::JUnit);
            v.push(Framework::JUnit4);
            v.push(Framework::TestNG);
        },
        Language::Rust => {
            v.push(Framework::Native);
        },
        Language::Python => {
            v.push(Framework::Pytest);
        },
        Language::JavaScript => {
            v.push(Framework::Jest);
        },
        Language::TypeScript => {
            v.push(Framework::Jest);
        },
    }
    proof {
        assert(v@ =~= spec_supported_frameworks(language));
    }
    v
}

} // verus!
