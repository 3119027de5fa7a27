//! The template registry: which (language, framework) pairs have a
//! generator, keyed by the enumerated template kinds.
use vstd::prelude::*;

use crate::cli::{spec_framework_name, spec_language_name, framework_name, language_name,
    Framework, Language};
use crate::error::TestsmithError;
use crate::template::java_junit::{spec_junit5_content, JavaJunitTemplate};
use crate::template::java_junit4::{spec_junit4_content, JavaJunit4Template};
use crate::template::rust_native::{spec_rust_native_content, RustNativeTemplate};
use crate::template::traits::TemplateContext;

verus! {

/// The generators the library ships, one per supported (language,
/// framework) pair.
#[derive(Clone, Copy, PartialEq, Eq, Structural, Debug)]
pub enum TemplateKind {
    JavaJunit,
    JavaJunit4,
    RustNative,
}

impl TemplateKind {
    /// The exact content the selected generator produces for the
    /// context.
    pub fn generate(&self, context: &TemplateContext) -> (r: Result<String, TestsmithError>)
        ensures
            *self == TemplateKind::JavaJunit ==> (r matches Ok(s) && s@ == spec_junit5_content(
                match context.package_name {
                    Option::Some(ref p) => Option::Some(p@),
                    Option::None => Option::None,
                },
                match context.class_name {
                    Option::Some(ref c) => Option::Some(c@),
                    Option::None => Option::None,
                },
            )),
            *self == TemplateKind::JavaJunit4 ==> (r matches Ok(s) && s@ == spec_junit4_content(
                match context.package_name {
                    Option::Some(ref p) => Option::Some(p@),
                    Option::None => Option::None,
                },
                match context.class_name {
                    Option::Some(ref c) => Option::Some(c@),
                    Option::None => Option::None,
                },
            )),
            *self == TemplateKind::RustNative ==> (r matches Ok(s) && s@
                == spec_rust_native_content()),
    {
        match self {
            TemplateKind::JavaJunit => JavaJunitTemplate::new().generate(context),
            TemplateKind::JavaJunit4 => JavaJunit4Template::new().generate(context),
            TemplateKind::RustNative => RustNativeTemplate::new().generate(context),
        }
    }

    pub fn name(&self) -> (r: &'static str)
        ensures
            *self == TemplateKind::JavaJunit ==> r@ == "Java JUnit 5"@,
            *self == TemplateKind::JavaJunit4 ==> r@ == "Java JUnit 4"@,
            *self == TemplateKind::RustNative ==> r@ == "Rust Native"@,
    {
        match self {
            TemplateKind::JavaJunit => "Java JUnit 5",
            TemplateKind::JavaJunit4 => "Java JUnit 4",
            TemplateKind::RustNative => "Rust Native",
        }
    }
}

/// The pair a registry row is keyed by, with its generator.
pub type RegistryRow = (Language, Framework, TemplateKind);

/// The rows a fresh registry starts with: the library's own
/// generators.
pub open spec fn spec_default_rows() -> Seq<RegistryRow> {
    seq![
        (Language::Java, Framework::JUnit, TemplateKind::JavaJunit),
        (Language::Java, Framework::JUnit4, TemplateKind::JavaJunit4),
        (Language::Rust, Framework::Native, TemplateKind::RustNative),
    ]
}

/// The generator of the governing row for the pair, scanning from
/// the end so that a later registration overrides an earlier one.
pub open spec fn spec_lookup(rows: Seq<RegistryRow>, language: Language, framework: Framework) -> Option<
    TemplateKind,
>
    decreases rows.len(),
{
    if rows.len() == 0 {
        Option::None
    } else if rows.last().0 == language && rows.last().1 == framework {
        Option::Some(rows.last().2)
    } else {
        spec_lookup(rows.drop_last(), language, framework)
    }
}

pub struct TemplateRegistry {
    rows: Vec<RegistryRow>,
}

impl TemplateRegistry {
    /// The registered rows, in registration order.
    pub closed spec fn rows(&self) -> Seq<RegistryRow> {
        self.rows@
    }

    /// The registry with the library's own generators registered.
    pub fn new() -> (r: Self)
        ensures
            r.rows() == spec_default_rows(),
    {
        let mut rows: Vec<RegistryRow> = Vec::new();
        rows.push((Language::Java, Framework::JUnit, TemplateKind::JavaJunit));
        rows.push((Language::Java, Framework::JUnit4, TemplateKind::JavaJunit4));
        rows.push((Language::Rust, Framework::Native, TemplateKind::RustNative));
        proof {
            assert(rows@ =~= spec_default_rows());
        }
        TemplateRegistry { rows }
    }

    /// The generator for the pair; an unregistered pair fails as an
    /// invalid combination.
    pub fn get_generator(&self, language: Language, framework: Framework) -> (r: Result<
        TemplateKind,
        TestsmithError,
    >)
        ensures
            match spec_lookup(self.rows(), language, framework) {
                Option::Some(k) => r == Ok::<TemplateKind, TestsmithError>(k),
                Option::None => (r matches Err(TestsmithError::InvalidCombination {
                    language: l,
                    framework: f,
                }) && l@ == spec_language_name(language) && f@ == spec_framework_name(framework)),
            },
    {
        let mut i: usize = self.rows.len();
        proof {
            assert(self.rows@.take(self.rows@.len() as int) =~= self.rows@);
        }
        while i > 0
            invariant
                i <= self.rows@.len(),
                spec_lookup(self.rows@, language, framework) == spec_lookup(
                    self.rows@.take(i as int),
                    language,
                    framework,
                ),
            decreases i,
        {
            i = i - 1;
            if self.rows[i].0 == language && self.rows[i].1 == framework {
                proof {
                    let t = self.rows@.take((i + 1) as int);
                    assert(t.last() == self.rows@[i as int]);
                }
                return Ok(self.rows[i].2);
            }
            proof {
                let t = self.rows@.take((i + 1) as int);
                assert(t.last() == self.rows@[i as int]);
                assert(t.drop_last() =~= self.rows@.take(i as int));
            }
        }
        proof {
            assert(self.rows@.take(0) =~= Seq::<RegistryRow>::empty());
        }
        Err(
            TestsmithError::InvalidCombination {
                language: language_name(language).to_owned(),
                framework: framework_name(framework).to_owned(),
            },
        )
    }

    /// Whether the pair has a registered generator.
    pub fn is_supported(&self, language: Language, framework: Framework) -> (r: bool)
        ensures
            r == (spec_lookup(self.rows(), language, framework) is Some),
    {
        self.get_generator(language, framework).is_ok()
    }

    /// Registers a generator for the pair; it overrides any earlier
    /// registration.
    pub fn register(&mut self, language: Language, framework: Framework, generator: TemplateKind)
        ensures
            final(self).rows() == old(self).rows().push((language, framework, generator)),
            spec_lookup(final(self).rows(), language, framework) == Option::Some(generator),
    {
        self.rows.push((language, framework, generator));
        proof {
            assert(self.rows@.drop_last() =~= old(self).rows@);
        }
    }
}

} // verus!
