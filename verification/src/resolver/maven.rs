//! The directory-substitution strategy used by Maven-like layouts
//! (Maven, Gradle, Flat): the main-source segment becomes the
//! test-source segment and the file name gains a "Test" suffix before
//! its extension, with every other path segment preserved.
use vstd::prelude::*;

use crate::cli::Language;
use crate::error::TestsmithError;
use crate::file_ops::FileSystem;
use crate::paths::{cleaned_path, clean_path, file_name_of, file_name_seq, join_path, join_seq,
    parent_path, parent_seq};
use crate::text::{chars_of, contains_chars, contains_seq, ends_with_chars, ends_with_seq,
    find_last_char, last_index_of, lemma_last_index_of, push_all, replace_chars, replace_seq,
    string_of, sub_chars};

verus! {

pub struct MavenResolver;

/// The path holds a main-source segment, written with either
/// separator.
pub open spec fn spec_has_main_segment(p: Seq<char>) -> bool {
    contains_seq(p, "src/main"@) || contains_seq(p, "src\\main"@)
}

/// Every main-source segment replaced by the test-source segment,
/// for both separators.
pub open spec fn spec_replaced(p: Seq<char>) -> Seq<char> {
    replace_seq(replace_seq(p, "src/main"@, "src/test"@), "src\\main"@, "src\\test"@)
}

/// "Test" inserted immediately before the file name's last dot, or
/// appended when there is no dot.
pub open spec fn spec_test_file_name(f: Seq<char>) -> Seq<char> {
    let d = last_index_of(f, '.');
    if d >= 0 {
        f.take(d) + "Test"@ + f.skip(d)
    } else {
        f + "Test"@
    }
}

/// The transformed path for a cleaned input on which the transform
/// succeeds: the replaced path's directory rejoined with the suffixed
/// file name.
pub open spec fn spec_transform_result(c: Seq<char>) -> Seq<char> {
    let q = spec_replaced(c);
    let f = file_name_seq(q)->Some_0;
    let par = match parent_seq(q) {
        Option::Some(d) => d,
        Option::None => Seq::<char>::empty(),
    };
    join_seq(par, spec_test_file_name(f))
}

impl MavenResolver {
    pub fn new() -> (r: Self) {
        MavenResolver
    }

    /// The transform on an already-cleaned path: replaces the
    /// main-source segment with the test-source segment and inserts
    /// the "Test" suffix before the extension, preserving all other
    /// segments. Fails exactly when the main-source segment is
    /// missing or the replaced path has no file name.
    pub fn transform_cleaned_path(cleaned: &str) -> (r: Result<String, TestsmithError>)
        ensures
            !spec_has_main_segment(cleaned@) ==> (r matches Err(TestsmithError::InvalidPath {
                path,
                reason,
            }) && path@ == cleaned@ && reason@ == "Path does not contain 'src/main' directory"@),
            spec_has_main_segment(cleaned@) && file_name_seq(spec_replaced(cleaned@)) is None ==> (
            r matches Err(TestsmithError::InvalidPath { path, reason }) && path@ == cleaned@
                && reason@ == "File has no name"@),
            spec_has_main_segment(cleaned@) && file_name_seq(spec_replaced(cleaned@)) is Some ==> (
            r matches Ok(s) && s@ == spec_transform_result(cleaned@)),
    {
        let v = chars_of(cleaned);
        if !(contains_chars(&v, &chars_of("src/main")) || contains_chars(
            &v,
            &chars_of("src\\main"),
        )) {
            return Err(
                TestsmithError::InvalidPath {
                    path: cleaned.to_owned(),
                    reason: "Path does not contain 'src/main' directory".to_owned(),
                },
            );
        }
        proof {
            reveal_strlit("src/main");
            reveal_strlit("src\\main");
        }
        let rep1 = replace_chars(&v, &chars_of("src/main"), &chars_of("src/test"));
        let rep = replace_chars(&rep1, &chars_of("src\\main"), &chars_of("src\\test"));
        let rep_s = string_of(&rep);
        let fname = match file_name_of(rep_s.as_str()) {
            Option::Some(f) => f,
            Option::None => {
                return Err(
                    TestsmithError::InvalidPath {
                        path: cleaned.to_owned(),
                        reason: "File has no name".to_owned(),
                    },
                );
            },
        };
        let parent: String = match parent_path(rep_s.as_str()) {
            Option::Some(d) => d,
            Option::None => String::new(),
        };
        proof {
            lemma_last_index_of(fname@, '.');
        }
        let test_name: Vec<char> = match find_last_char(&fname, '.') {
            Option::Some(d) => {
                let mut t = sub_chars(&fname, 0, d);
                push_all(&mut t, &chars_of("Test"));
                let ext = sub_chars(&fname, d, fname.len());
                push_all(&mut t, &ext);
                proof {
                    assert(t@ =~= spec_test_file_name(fname@));
                }
                t
            },
            Option::None => {
                let mut t = sub_chars(&fname, 0, fname.len());
                proof {
                    assert(t@ =~= fname@);
                }
                push_all(&mut t, &chars_of("Test"));
                proof {
                    assert(t@ =~= spec_test_file_name(fname@));
                }
                t
            },
        };
        let test_name_s = string_of(&test_name);
        Ok(join_path(parent.as_str(), test_name_s.as_str()))
    }

    /// The whole transform: clean the source path, substitute the
    /// test-source segment and the "Test" suffix, and clean the
    /// rejoined result.
    pub fn transform_path(source_path: &str, _language: Language) -> (r: Result<
        String,
        TestsmithError,
    >)
        ensures
            !spec_has_main_segment(cleaned_path(source_path@)) ==> (r matches Err(
                TestsmithError::InvalidPath { path, reason },
            ) && path@ == source_path@ && reason@
                == "Path does not contain 'src/main' directory"@),
            spec_has_main_segment(cleaned_path(source_path@)) && file_name_seq(
                spec_replaced(cleaned_path(source_path@)),
            ) is None ==> (r matches Err(TestsmithError::InvalidPath { path, reason }) && path@
                == source_path@ && reason@ == "File has no name"@),
            spec_has_main_segment(cleaned_path(source_path@)) && file_name_seq(
                spec_replaced(cleaned_path(source_path@)),
            ) is Some ==> (r matches Ok(s) && s@ == cleaned_path(
                spec_transform_result(cleaned_path(source_path@)),
            )),
    {
        let cleaned = clean_path(source_path);
        match Self::transform_cleaned_path(cleaned.as_str()) {
            Ok(t) => Ok(clean_path(t.as_str())),
            Err(TestsmithError::InvalidPath { path: _, reason }) => Err(
                TestsmithError::InvalidPath { path: source_path.to_owned(), reason },
            ),
            Err(e) => Err(e),
        }
    }

    /// The strategy's test path for an existing source file; a
    /// missing source file fails first.
    pub fn resolve_test_path(&self, fs: &FileSystem, source_path: &str, language: Language) -> (r:
        Result<String, TestsmithError>)
        ensures
            !fs.files().contains_key(source_path@) ==> (r matches Err(
                TestsmithError::FileNotFound { path },
            ) && path@ == source_path@),
            fs.files().contains_key(source_path@) ==> {
                &&& !spec_has_main_segment(cleaned_path(source_path@)) ==> (r matches Err(
                    TestsmithError::InvalidPath { path, reason },
                ) && path@ == source_path@ && reason@
                    == "Path does not contain 'src/main' directory"@)
                &&& spec_has_main_segment(cleaned_path(source_path@)) && file_name_seq(
                    spec_replaced(cleaned_path(source_path@)),
                ) is None ==> (r matches Err(TestsmithError::InvalidPath { path, reason })
                    && path@ == source_path@ && reason@ == "File has no name"@)
                &&& spec_has_main_segment(cleaned_path(source_path@)) && file_name_seq(
                    spec_replaced(cleaned_path(source_path@)),
                ) is Some ==> (r matches Ok(s) && s@ == cleaned_path(
                    spec_transform_result(cleaned_path(source_path@)),
                ))
            },
    {
        if !fs.file_exists(source_path) {
            return Err(TestsmithError::FileNotFound { path: source_path.to_owned() });
        }
        Self::transform_path(source_path, language)
    }

    /// A path is source-shaped for this strategy when it holds a
    /// main-source segment.
    pub fn is_source_path(&self, path: &str) -> (r: bool)
        ensures
            r == spec_has_main_segment(path@),
    {
        let v = chars_of(path);
        contains_chars(&v, &chars_of("src/main")) || contains_chars(&v, &chars_of("src\\main"))
    }

    /// A path is test-shaped for this strategy when it holds a
    /// test-source segment and names a Java test class file.
    pub fn is_test_path(&self, path: &str) -> (r: bool)
        ensures
            r == ((contains_seq(path@, "src/test"@) || contains_seq(path@, "src\\test"@))
                && ends_with_seq(path@, "Test.java"@)),
    {
        let v = chars_of(path);
        (contains_chars(&v, &chars_of("src/test")) || contains_chars(&v, &chars_of("src\\test")))
            && ends_with_chars(&v, &chars_of("Test.java"))
    }

    pub fn name(&self) -> (r: &'static str)
        ensures
            r@ == "Maven"@,
    {
        "Maven"
    }
}

impl crate::resolver::traits::StructureResolver for MavenResolver {
    fn resolve_test_path(&self, fs: &FileSystem, source_path: &str, language: Language) -> Result<
        String,
        TestsmithError,
    > {
        MavenResolver::resolve_test_path(self, fs, source_path, language)
    }

    fn is_source_path(&self, path: &str) -> bool {
        MavenResolver::is_source_path(self, path)
    }

    fn is_test_path(&self, path: &str) -> bool {
        MavenResolver::is_test_path(self, path)
    }

    fn name(&self) -> &'static str {
        MavenResolver::name(self)
    }
}

} // verus!
