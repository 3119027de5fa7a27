//! Finds the closest enclosing project root by walking ancestor
//! directories and probing for language-specific marker files.
use vstd::prelude::*;

use crate::cli::Language;
use crate::file_ops::FileSystem;
use crate::paths::{join_path, join_seq, parent_path, parent_seq};
use crate::text::{lemma_last_index_of, strs_view};

verus! {

/// The marker (manifest) file names that identify a project root for
/// each language.
pub open spec fn spec_marker_names(language: Language) -> Seq<Seq<char>> {
    match language {
        Language::Java => seq!["pom.xml"@, "build.gradle"@, "build.gradle.kts"@, "build.sbt"@],
        Language::Rust => seq!["Cargo.toml"@],
        Language::JavaScript => seq!["package.json"@],
        Language::TypeScript => seq!["package.json"@],
        Language::Python => seq!["pyproject.toml"@, "setup.py"@, "requirements.txt"@],
    }
}

pub fn config_files_for_language(language: Language) -> (r: Vec<&'static str>)
    ensures
        strs_view(r@) == spec_marker_names(language),
{
    let mut v: Vec<&'static str> = Vec::new();
    match language {
        Language::Java => {
            v.push("pom.xml");
            v.push("build.gradle");
            v.push("build.gradle.kts");
            v.push("build.sbt");
        },
        Language::Rust => {
            v.push("Cargo.toml");
        },
        Language::JavaScript => {
            v.push("package.json");
        },
        Language::TypeScript => {
            v.push("package.json");
        },
        Language::Python => {
            v.push("pyproject.toml");
            v.push("setup.py");
            v.push("requirements.txt");
        },
    }
    proof {
        assert(strs_view(v@) =~= spec_marker_names(language));
    }
    v
}

/// One of the marker files exists (as file or directory) directly
/// under `dir`.
pub open spec fn spec_dir_has_marker(fs: FileSystem, dir: Seq<char>, markers: Seq<Seq<char>>) -> bool {
    exists|i: int|
        0 <= i < markers.len() && fs.spec_path_exists(join_seq(dir, #[trigger] markers[i]))
}

/// The closest directory, from `dir` upward, holding a marker file.
pub open spec fn spec_root_from(fs: FileSystem, dir: Seq<char>, markers: Seq<Seq<char>>) -> Option<
    Seq<char>,
>
    decreases dir.len(),
    via spec_root_from_dec
{
    if spec_dir_has_marker(fs, dir, markers) {
        Option::Some(dir)
    } else {
        match parent_seq(dir) {
            Option::None => Option::None,
            Option::Some(p) => spec_root_from(fs, p, markers),
        }
    }
}

#[via_fn]
proof fn spec_root_from_dec(fs: FileSystem, dir: Seq<char>, markers: Seq<Seq<char>>) {
    lemma_last_index_of(dir, '/');
    if dir.len() == 1 && dir[0] == '/' {
        assert(dir =~= seq!['/']);
    }
}

/// Where the upward walk begins: the path itself when it is a
/// directory, else its parent.
pub open spec fn spec_start_dir(fs: FileSystem, path: Seq<char>) -> Option<Seq<char>> {
    if fs.dirs().contains(path) {
        Option::Some(path)
    } else {
        parent_seq(path)
    }
}

/// The project root the walk finds, or `None` when no ancestor holds
/// a marker.
pub open spec fn spec_find_root(fs: FileSystem, path: Seq<char>, markers: Seq<Seq<char>>) -> Option<
    Seq<char>,
> {
    match spec_start_dir(fs, path) {
        Option::None => Option::None,
        Option::Some(d) => spec_root_from(fs, d, markers),
    }
}

pub(crate) fn dir_has_marker(fs: &FileSystem, dir: &str, markers: &Vec<&str>) -> (r: bool)
    ensures
        r == spec_dir_has_marker(*fs, dir@, strs_view(markers@)),
{
    let mut k: usize = 0;
    while k < markers.len()
        invariant
            k <= markers@.len(),
            forall|i: int|
                0 <= i < k ==> !fs.spec_path_exists(
                    join_seq(dir@, #[trigger] strs_view(markers@)[i]),
                ),
        decreases markers@.len() - k,
    {
        let cand = join_path(dir, markers[k]);
        if fs.path_exists(cand.as_str()) {
            proof {
                assert(fs.spec_path_exists(join_seq(dir@, strs_view(markers@)[k as int])));
            }
            return true;
        }
        k = k + 1;
    }
    false
}

/// Walks upward from the source path, checking every marker file of
/// the language at each level, and returns the first (closest)
/// directory that holds one.
pub fn find_project_root(fs: &FileSystem, start_path: &str, language: Language) -> (r: Option<
    String,
>)
    ensures
        match r {
            Option::Some(d) => spec_find_root(*fs, start_path@, spec_marker_names(language))
                == Option::Some(d@),
            Option::None => spec_find_root(*fs, start_path@, spec_marker_names(language)) is None,
        },
{
    let markers = config_files_for_language(language);
    let ghost ms = spec_marker_names(language);
    let mut current: String = if fs.dir_exists(start_path) {
        start_path.to_owned()
    } else {
        match parent_path(start_path) {
            Option::Some(p) => p,
            Option::None => {
                return None;
            },
        }
    };
    proof {
        assert(spec_find_root(*fs, start_path@, ms) == spec_root_from(*fs, current@, ms));
    }
    loop
        invariant
            ms == spec_marker_names(language),
            strs_view(markers@) == ms,
            spec_find_root(*fs, start_path@, ms) == spec_root_from(*fs, current@, ms),
        decreases current@.len(),
    {
        if dir_has_marker(fs, current.as_str(), &markers) {
            return Some(current);
        }
        match parent_path(current.as_str()) {
            Option::Some(p) => {
                proof {
                    lemma_last_index_of(current@, '/');
                    if current@.len() == 1 && current@[0] == '/' {
                        assert(current@ =~= seq!['/']);
                    }
                }
                current = p;
            },
            Option::None => {
                return None;
            },
        }
    }
}

} // verus!
