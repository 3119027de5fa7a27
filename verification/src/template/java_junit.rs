//! The JUnit 5 template for Java: package and class-name extraction
//! from the source file, and the generated test skeleton.
use vstd::prelude::*;

use crate::cli::{Framework, Language};
use crate::error::TestsmithError;
use crate::file_ops::FileSystem;
use crate::paths::{file_name_of, file_name_seq};
use crate::template::traits::{TemplateContext, TemplateGenerator};
use crate::text::{chars_of, ends_with_chars, ends_with_seq, lines_seq, split_lines, string_of,
    trim_end_chars, trim_end_seq, views_of};

verus! {

pub struct JavaJunitTemplate;

/// What the package-declaration pattern captures from one line of
/// Java source: the dotted package name, when the line is a package
/// declaration. A function of the line's characters alone.
pub uninterp spec fn package_line_capture(line: Seq<char>) -> Option<Seq<char>>;

/// Relies on regex::Regex::new and Regex::captures: the line is
/// matched against the start-anchored package-declaration pattern
/// and the capture group holding the dotted name is returned. The
/// pattern is a constant, so the result depends on the line alone.
#[verifier::external_body]
pub(crate) fn capture_package_line(line: &str) -> (r: Option<String>)
    ensures
        match r {
            Option::Some(s) => package_line_capture(line@) == Option::Some(s@),
            Option::None => package_line_capture(line@) is None,
        },
{
    let re = regex::Regex::new(r"^\s*package\s+([\w\.]+)\s*;").unwrap();
    re.captures(line).and_then(|c| c.get(1)).map(|m| m.as_str().to_string())
}

/// The capture of the first line that the package pattern matches.
pub open spec fn spec_first_package(lines: Seq<Seq<char>>) -> Option<Seq<char>>
    decreases lines.len(),
{
    if lines.len() == 0 {
        Option::None
    } else {
        match package_line_capture(lines[0]) {
            Option::Some(p) => Option::Some(p),
            Option::None => spec_first_package(lines.skip(1)),
        }
    }
}

proof fn lemma_first_package_some(lines: Seq<Seq<char>>, i: int, p: Seq<char>)
    requires
        0 <= i < lines.len(),
        forall|j: int| 0 <= j < i ==> package_line_capture(#[trigger] lines[j]) is None,
        package_line_capture(lines[i]) == Option::Some(p),
    ensures
        spec_first_package(lines) == Option::Some(p),
    decreases i,
{
    if i == 0 {
    } else {
        assert(forall|j: int| 0 <= j < lines.len() - 1 ==> lines.skip(1)[j] == lines[j + 1]);
        lemma_first_package_some(lines.skip(1), i - 1, p);
    }
}

proof fn lemma_first_package_none(lines: Seq<Seq<char>>)
    requires
        forall|j: int| 0 <= j < lines.len() ==> package_line_capture(#[trigger] lines[j]) is None,
    ensures
        spec_first_package(lines) is None,
    decreases lines.len(),
{
    if lines.len() > 0 {
        assert(forall|j: int| 0 <= j < lines.len() - 1 ==> lines.skip(1)[j] == lines[j + 1]);
        lemma_first_package_none(lines.skip(1));
    }
}

/// The class name a file name yields: the conventional test suffix
/// or the Java extension stripped from its end, as often as present.
pub open spec fn spec_class_name(f: Seq<char>) -> Seq<char> {
    if ends_with_seq(f, "Test.java"@) {
        trim_end_seq(f, "Test.java"@)
    } else if ends_with_seq(f, ".java"@) {
        trim_end_seq(f, ".java"@)
    } else {
        f
    }
}

/// A name that ends in the test-class suffix also ends in the plain
/// Java extension.
proof fn lemma_ends_testjava_ends_java(m: Seq<char>)
    ensures
        ends_with_seq(m, "Test.java"@) ==> ends_with_seq(m, ".java"@),
{
    reveal_strlit("Test.java");
    reveal_strlit(".java");
    if ends_with_seq(m, "Test.java"@) {
        assert forall|k: int| 0 <= k < ".java"@.len() implies m[m.len() - ".java"@.len() + k]
            == ".java"@[k] by {
            assert(m[m.len() - "Test.java"@.len() + (4 + k)] == "Test.java"@[4 + k]);
            assert("Test.java"@[4 + k] == ".java"@[k]);
        }
    }
}

/// The round trip the templates rely on: a test-class file name and
/// the matching source file name both yield the same identifier.
/// Holds for any identifier that itself ends in neither the test
/// suffix nor the Java extension.
pub proof fn lemma_class_name_round_trip(n: Seq<char>)
    requires
        !ends_with_seq(n, "Test"@),
        !ends_with_seq(n, ".java"@),
    ensures
        spec_class_name(n + "Test.java"@) == n,
        spec_class_name(n + ".java"@) == n,
{
    reveal_strlit("Test.java");
    reveal_strlit(".java");
    reveal_strlit("Test");
    let tj = n + "Test.java"@;
    assert(ends_with_seq(tj, "Test.java"@)) by {
        assert(forall|k: int|
            0 <= k < "Test.java"@.len() ==> tj[n.len() + k] == "Test.java"@[k]);
    }
    assert(tj.take(tj.len() - "Test.java"@.len()) =~= n);
    lemma_ends_testjava_ends_java(n);
    assert(!ends_with_seq(n, "Test.java"@));
    assert(spec_class_name(tj) == n) by {
        assert(trim_end_seq(tj, "Test.java"@) == trim_end_seq(n, "Test.java"@));
        assert(trim_end_seq(n, "Test.java"@) == n);
    }
    let j = n + ".java"@;
    assert(ends_with_seq(j, ".java"@)) by {
        assert(forall|k: int| 0 <= k < ".java"@.len() ==> j[n.len() + k] == ".java"@[k]);
    }
    assert(!ends_with_seq(j, "Test.java"@)) by {
        if ends_with_seq(j, "Test.java"@) {
            assert forall|k: int| 0 <= k < "Test"@.len() implies n[n.len() - "Test"@.len() + k]
                == "Test"@[k] by {
                assert(j[j.len() - "Test.java"@.len() + k] == "Test.java"@[k]);
                assert(j.len() - "Test.java"@.len() + k == n.len() - "Test"@.len() + k);
                assert(j[n.len() - "Test"@.len() + k] == n[n.len() - "Test"@.len() + k]);
                assert("Test.java"@[k] == "Test"@[k]);
            }
            assert(ends_with_seq(n, "Test"@));
        }
    }
    assert(j.take(j.len() - ".java"@.len()) =~= n);
    assert(spec_class_name(j) == n) by {
        assert(trim_end_seq(j, ".java"@) == trim_end_seq(n, ".java"@));
        assert(trim_end_seq(n, ".java"@) == n);
    }
}

/// The generated JUnit 5 skeleton: an optional package declaration,
/// the framework imports, and a test class named after the source
/// class, holding one placeholder test method.
pub open spec fn spec_junit5_content(pkg: Option<Seq<char>>, class_name: Option<Seq<char>>) -> Seq<
    char,
> {
    let pkg_part = match pkg {
        Option::Some(p) => "package "@ + p + ";\n\n"@,
        Option::None => Seq::<char>::empty(),
    };
    let cls = match class_name {
        Option::Some(c) => c,
        Option::None => "Example"@,
    };
    pkg_part
        + "import org.junit.jupiter.api.Test;\nimport static org.junit.jupiter.api.Assertions.*;\n\nclass "@
        + cls + "Test {\n    @Test\n    void testExample() {\n        // TODO: Implement test\n    }\n}\n"@
}

impl JavaJunitTemplate {
    pub fn new() -> (r: Self) {
        JavaJunitTemplate
    }

    /// The dotted name of the first package declaration in the
    /// source file, read line by line; a missing file fails, a file
    /// without a declaration yields `None`.
    pub fn extract_package_name(fs: &FileSystem, source_path: &str) -> (r: Result<
        Option<String>,
        TestsmithError,
    >)
        ensures
            !fs.files().contains_key(source_path@) ==> (r matches Err(
                TestsmithError::FileReadError { path, reason: _ },
            ) && path@ == source_path@),
            fs.files().contains_key(source_path@) ==> (r matches Ok(o) && (match o {
                Option::Some(p) => spec_first_package(lines_seq(fs.files()[source_path@]))
                    == Option::Some(p@),
                Option::None => spec_first_package(lines_seq(fs.files()[source_path@])) is None,
            })),
    {
        let content = match fs.read_file(source_path) {
            Ok(c) => c,
            Err(e) => {
                return Err(e);
            },
        };
        let cv = chars_of(content.as_str());
        let lines = split_lines(&cv);
        let mut i: usize = 0;
        while i < lines.len()
            invariant
                fs.files().contains_key(source_path@),
                cv@ == fs.files()[source_path@],
                views_of(lines@) == lines_seq(cv@),
                i <= lines@.len(),
                forall|j: int|
                    0 <= j < i ==> package_line_capture(#[trigger] views_of(lines@)[j]) is None,
            decreases lines@.len() - i,
        {
            proof {
                assert(views_of(lines@)[i as int] == lines@[i as int]@);
            }
            let line = string_of(&lines[i]);
            match capture_package_line(line.as_str()) {
                Option::Some(p) => {
                    proof {
                        lemma_first_package_some(views_of(lines@), i as int, p@);
                    }
                    return Ok(Some(p));
                },
                Option::None => {},
            }
            i = i + 1;
        }
        proof {
            lemma_first_package_none(views_of(lines@));
        }
        Ok(None)
    }

    /// The class name derived from the path's file name; a path
    /// without a file name fails.
    pub fn extract_class_name(path: &str) -> (r: Result<String, TestsmithError>)
        ensures
            file_name_seq(path@) is None ==> (r matches Err(
                TestsmithError::ClassNameExtractionError { path: p, reason },
            ) && p@ == path@ && reason@ == "No filename found"@),
            file_name_seq(path@) matches Some(f) ==> (r matches Ok(s) && s@ == spec_class_name(
                f,
            )),
    {
        let fname = match file_name_of(path) {
            Option::Some(f) => f,
            Option::None => {
                return Err(
                    TestsmithError::ClassNameExtractionError {
                        path: path.to_owned(),
                        reason: "No filename found".to_owned(),
                    },
                );
            },
        };
        let stripped: Vec<char> = if ends_with_chars(&fname, &chars_of("Test.java")) {
            trim_end_chars(&fname, &chars_of("Test.java"))
        } else if ends_with_chars(&fname, &chars_of(".java")) {
            trim_end_chars(&fname, &chars_of(".java"))
        } else {
            fname
        };
        Ok(string_of(&stripped))
    }

    /// The exact JUnit 5 skeleton for the context.
    pub fn generate(&self, context: &TemplateContext) -> (r: Result<String, TestsmithError>)
        ensures
            r matches Ok(s) && s@ == spec_junit5_content(
                match context.package_name {
                    Option::Some(ref p) => Option::Some(p@),
                    Option::None => Option::None,
                },
                match context.class_name {
                    Option::Some(ref c) => Option::Some(c@),
                    Option::None => Option::None,
                },
            ),
    {
        let mut s = String::new();
        match &context.package_name {
            Option::Some(p) => {
                s.append("package ");
                s.append(p.as_str());
                s.append(";\n\n");
            },
            Option::None => {},
        }
        s.append("import org.junit.jupiter.api.Test;\nimport static org.junit.jupiter.api.Assertions.*;\n\nclass ");
        match &context.class_name {
            Option::Some(c) => {
                s.append(c.as_str());
            },
            Option::None => {
                s.append("Example");
            },
        }
        s.append("Test {\n    @Test\n    void testExample() {\n        // TODO: Implement test\n    }\n}\n");
        proof {
            assert(s@ =~= spec_junit5_content(
                match context.package_name {
                    Option::Some(ref p) => Option::Some(p@),
                    Option::None => Option::None,
                },
                match context.class_name {
                    Option::Some(ref c) => Option::Some(c@),
                    Option::None => Option::None,
                },
            ));
        }
        Ok(s)
    }

    pub fn name(&self) -> (r: &'static str)
        ensures
            r@ == "Java JUnit 5"@,
    {
        "Java JUnit 5"
    }
}

impl TemplateGenerator for JavaJunitTemplate {
    fn generate(&self, context: &TemplateContext) -> Result<String, TestsmithError> {
        JavaJunitTemplate::generate(self, context)
    }

    fn name(&self) -> &'static str {
        JavaJunitTemplate::name(self)
    }

    fn language(&self) -> Language {
        Language::Java
    }

    fn framework(&self) -> Framework {
        Framework::JUnit
    }
}

} // verus!
