//! The orchestrator: one resolution from source path to test path,
//! applying the four-tier precedence for framework and structure, the
//! existing-file state machine, and the final write or preview.
use vstd::prelude::*;

use crate::cache::{get_cache_entry, spec_is_stale, update_cache_entry, CacheEntryView,
    ProjectCache};
use crate::cli::{language_name, parse_framework, parse_structure, spec_language_name,
    spec_framework_name, spec_parse_framework, spec_parse_structure, Framework, Language,
    StructureType};
use crate::config::framework::{spec_valid_combination, validate_combination};
use crate::config::framework_detector::{detect_framework, spec_detect_framework};
use crate::config::language::{detect_language, default_framework_for_language,
    spec_default_framework, spec_language_for_extension};
use crate::config::project_root::{config_files_for_language, find_project_root, spec_find_root,
    spec_marker_names};
use crate::config::structure_detector::{detect_structure, spec_detect_structure};
use crate::error::TestsmithError;
use crate::file_ops::FileSystem;
use crate::paths::{cleaned_path, extension_seq, file_name_seq};
use crate::resolver::maven::{spec_has_main_segment, spec_replaced, spec_transform_result,
    MavenResolver};
use crate::resolver::same_file::SameFileResolver;
use crate::template::java_junit::{spec_class_name, spec_first_package, spec_junit5_content,
    JavaJunitTemplate};
use crate::template::java_junit4::spec_junit4_content;
use crate::template::registry::{spec_default_rows, spec_lookup, TemplateKind, TemplateRegistry};
use crate::template::rust_native::spec_rust_native_content;
use crate::template::traits::TemplateContext;
use crate::text::{chars_of, contains_chars, contains_seq, count_lines, find_line_with,
    find_line_with_either, first_line_with, first_line_with_either, lines_seq};

verus! {

/// The caller's options for one resolution run.
#[derive(Clone, Copy)]
pub struct GeneratorOptions {
    pub structure: StructureType,
    pub language: Option<Language>,
    pub framework: Option<Framework>,
    pub create: bool,
    pub dry_run: bool,
}

/// The outcome of one resolution run.
#[derive(Debug)]
pub struct GeneratorResult {
    pub test_file_path: String,
    pub created: bool,
    pub dry_run: bool,
    pub line_number: i32,
}

/// The language the run works in: the explicit choice, or what the
/// extension implies.
pub open spec fn spec_lang_of(source: Seq<char>, opts: GeneratorOptions) -> Option<Language> {
    match opts.language {
        Option::Some(l) => Option::Some(l),
        Option::None => match extension_seq(source) {
            Option::None => Option::None,
            Option::Some(e) => spec_language_for_extension(e),
        },
    }
}

/// The project root the run sees for the resolved language.
pub open spec fn spec_root_of(fs: FileSystem, source: Seq<char>, l: Language) -> Option<Seq<char>> {
    spec_find_root(fs, source, spec_marker_names(l))
}

/// What a fresh cache entry contributes: its stored framework name
/// decoded, provided the entry is not stale; anything else is a
/// cache miss.
pub open spec fn spec_cached_framework(
    fs: FileSystem,
    cache: Map<(Seq<char>, Seq<char>), CacheEntryView>,
    root: Option<Seq<char>>,
    l: Language,
) -> Option<Framework> {
    match root {
        Option::None => Option::None,
        Option::Some(rt) => {
            let key = (rt, spec_language_name(l));
            if cache.contains_key(key) && !spec_is_stale(
                fs,
                rt,
                cache[key].last_used,
                spec_marker_names(l),
            ) {
                spec_parse_framework(cache[key].framework)
            } else {
                Option::None
            }
        },
    }
}

/// The framework precedence: explicit choice, fresh cache entry,
/// manifest detection, language default — each validated; `Err`
/// carries the framework an invalid tier offered.
pub open spec fn spec_framework_of(
    fs: FileSystem,
    cache: Map<(Seq<char>, Seq<char>), CacheEntryView>,
    source: Seq<char>,
    opts: GeneratorOptions,
    l: Language,
) -> Result<Framework, Framework> {
    match opts.framework {
        Option::Some(f) => if spec_valid_combination(l, f) {
            Result::Ok(f)
        } else {
            Result::Err(f)
        },
        Option::None => match spec_cached_framework(fs, cache, spec_root_of(fs, source, l), l) {
            Option::Some(f) => if spec_valid_combination(l, f) {
                Result::Ok(f)
            } else {
                Result::Err(f)
            },
            Option::None => match spec_detect_framework(fs, source, l) {
                Option::Some(f) => if spec_valid_combination(l, f) {
                    Result::Ok(f)
                } else {
                    Result::Err(f)
                },
                Option::None => Result::Ok(spec_default_framework(l)),
            },
        },
    }
}

/// What a fresh cache entry contributes to the structure tier: its
/// stored structure name decoded, provided the entry is not stale;
/// a stale entry or an unrecognized stored name is a cache miss,
/// the same rule the framework tier applies.
pub open spec fn spec_cached_structure(
    fs: FileSystem,
    cache: Map<(Seq<char>, Seq<char>), CacheEntryView>,
    root: Option<Seq<char>>,
    l: Language,
) -> Option<StructureType> {
    match root {
        Option::None => Option::None,
        Option::Some(rt) => {
            let key = (rt, spec_language_name(l));
            if cache.contains_key(key) && !spec_is_stale(
                fs,
                rt,
                cache[key].last_used,
                spec_marker_names(l),
            ) {
                spec_parse_structure(cache[key].structure)
            } else {
                Option::None
            }
        },
    }
}

/// The structure precedence: a non-default explicit choice stands;
/// otherwise a fresh cache entry's stored structure, else directory
/// detection under the root, else the default.
pub open spec fn spec_structure_of(
    fs: FileSystem,
    cache: Map<(Seq<char>, Seq<char>), CacheEntryView>,
    source: Seq<char>,
    opts: GeneratorOptions,
    l: Language,
) -> StructureType {
    if opts.structure == StructureType::Maven {
        match spec_root_of(fs, source, l) {
            Option::Some(rt) => {
                match spec_cached_structure(fs, cache, Option::Some(rt), l) {
                    Option::Some(s) => s,
                    Option::None => spec_detect_structure(fs, rt, l),
                }
            },
            Option::None => opts.structure,
        }
    } else {
        opts.structure
    }
}

/// An explicitly requested framework outside the validity table is
/// rejected whatever the cache and the file system hold: the
/// explicit tier is decided before either is consulted.
pub proof fn lemma_explicit_invalid_combination(
    fs: FileSystem,
    cache: Map<(Seq<char>, Seq<char>), CacheEntryView>,
    source: Seq<char>,
    opts: GeneratorOptions,
    l: Language,
    f: Framework,
)
    requires
        opts.framework == Option::Some(f),
        !spec_valid_combination(l, f),
    ensures
        spec_framework_of(fs, cache, source, opts, l) == Result::<Framework, Framework>::Err(f),
{
}

/// How path resolution ends for the resolved structure.
pub ghost enum SpecPathOutcome {
    Missing,
    NoMainSegment,
    NoFileName,
    Resolved(Seq<char>),
}

pub open spec fn spec_path_outcome(fs: FileSystem, source: Seq<char>, st: StructureType) -> SpecPathOutcome {
    if !fs.files().contains_key(source) {
        SpecPathOutcome::Missing
    } else if st == StructureType::SameFile {
        SpecPathOutcome::Resolved(source)
    } else {
        let c = cleaned_path(source);
        if !spec_has_main_segment(c) {
            SpecPathOutcome::NoMainSegment
        } else if file_name_seq(spec_replaced(c)) is None {
            SpecPathOutcome::NoFileName
        } else {
            SpecPathOutcome::Resolved(cleaned_path(spec_transform_result(c)))
        }
    }
}

/// The test file holds a recognizable test-module marker; only
/// meaningful for the same-file structure.
pub open spec fn spec_has_module(fs: FileSystem, st: StructureType, tp: Seq<char>) -> bool {
    st == StructureType::SameFile && fs.files().contains_key(tp) && contains_seq(
        fs.files()[tp],
        "#[cfg(test)]"@,
    )
}

/// The cursor line reported for a test file that already holds a
/// test module: the first test attribute, else the first placeholder
/// comment, else the first line.
pub open spec fn spec_found_line(content: Seq<char>) -> int {
    match first_line_with(content, "#[test]"@) {
        Option::Some(i) => i + 1,
        Option::None => match first_line_with(content, "// TODO"@) {
            Option::Some(i) => i + 1,
            Option::None => 1,
        },
    }
}

/// The cursor line reported for an existing test file without a
/// module marker: the first placeholder-like line, else the first.
pub open spec fn spec_todo_line(content: Seq<char>) -> int {
    match first_line_with_either(content, "// TODO"@, "TODO:"@) {
        Option::Some(i) => i + 1,
        Option::None => 1,
    }
}

/// Where the placeholder comment sits within freshly generated
/// content.
pub open spec fn spec_new_content_line(content: Seq<char>) -> int {
    match first_line_with(content, "// TODO"@) {
        Option::Some(i) => i + 1,
        Option::None => 1,
    }
}

/// A line number clamped into the reported 32-bit range.
pub open spec fn spec_i32_line(n: int) -> int {
    if n > 0x7fff_ffff {
        0x7fff_ffff
    } else {
        n
    }
}

/// The skeleton content generated for the run: package and class
/// names are read from the source file for Java, and ignored by the
/// Rust template.
pub open spec fn spec_template_content(
    fs: FileSystem,
    source: Seq<char>,
    l: Language,
    k: TemplateKind,
) -> Seq<char> {
    let pkg = if l == Language::Java {
        spec_first_package(lines_seq(fs.files()[source]))
    } else {
        Option::None
    };
    let cls = if l == Language::Java {
        match file_name_seq(source) {
            Option::Some(f) => Option::Some(spec_class_name(f)),
            Option::None => Option::None,
        }
    } else {
        Option::None
    };
    match k {
        TemplateKind::JavaJunit => spec_junit5_content(pkg, cls),
        TemplateKind::JavaJunit4 => spec_junit4_content(pkg, cls),
        TemplateKind::RustNative => spec_rust_native_content(),
    }
}

fn line_to_i32(n: usize) -> (r: i32)
    ensures
        r as int == spec_i32_line(n as int),
{
    if n >= 0x7fff_ffff {
        0x7fff_ffff
    } else {
        n as i32
    }
}

fn sum_line_to_i32(a: usize, b: usize) -> (r: i32)
    ensures
        r as int == spec_i32_line(a + b),
{
    if a > usize::MAX - b {
        0x7fff_ffff
    } else {
        line_to_i32(a + b)
    }
}

fn line_idx_to_i32(i: usize) -> (r: i32)
    ensures
        r as int == spec_i32_line(i + 1),
{
    if i >= 0x7fff_ffff {
        0x7fff_ffff
    } else {
        (i + 1) as i32
    }
}

fn sum_line_idx_to_i32(a: usize, i: usize) -> (r: i32)
    ensures
        r as int == spec_i32_line(a + i + 1),
{
    if i == usize::MAX {
        0x7fff_ffff
    } else {
        sum_line_to_i32(a, i + 1)
    }
}

/// The framework tier walk, against a root already resolved.
fn resolve_framework(
    fs: &FileSystem,
    cache: &ProjectCache,
    source_path: &str,
    language: Language,
    language_str: &str,
    project_root: &Option<String>,
    explicit: Option<Framework>,
) -> (r: Result<Framework, TestsmithError>)
    requires
        language_str@ == spec_language_name(language),
        match project_root {
            Option::Some(d) => spec_root_of(*fs, source_path@, language) == Option::Some(d@),
            Option::None => spec_root_of(*fs, source_path@, language) is None,
        },
    ensures
        ({
            let opts = GeneratorOptions {
                structure: StructureType::Maven,
                language: Option::Some(language),
                framework: explicit,
                create: false,
                dry_run: false,
            };
            match spec_framework_of(*fs, cache@, source_path@, opts, language) {
                Result::Ok(f) => r == Ok::<Framework, TestsmithError>(f),
                Result::Err(f) => (r matches Err(TestsmithError::InvalidCombination {
                    language: ln,
                    framework: fn_,
                }) && ln@ == spec_language_name(language) && fn_@ == spec_framework_name(f)),
            }
        }),
{
    if let Some(fw) = explicit {
        return match validate_combination(language, fw) {
            Ok(()) => Ok(fw),
            Err(e) => Err(e),
        };
    }
    let mut cached_framework: Option<Framework> = None;
    if let Some(root_str) = project_root {
        if let Some(entry) = get_cache_entry(cache, root_str.as_str(), language_str) {
            let config_files = config_files_for_language(language);
            if !crate::cache::is_cache_stale(
                fs,
                root_str.as_str(),
                entry.last_used,
                &config_files,
            ) {
                cached_framework = parse_framework(entry.framework.as_str());
            }
        }
    }
    proof {
        assert(cached_framework == spec_cached_framework(
            *fs,
            cache@,
            spec_root_of(*fs, source_path@, language),
            language,
        ));
    }
    if let Some(fw) = cached_framework {
        return match validate_combination(language, fw) {
            Ok(()) => Ok(fw),
            Err(e) => Err(e),
        };
    }
    let detected = match detect_framework(fs, source_path, language) {
        Ok(d) => d,
        Err(e) => {
            return Err(e);
        },
    };
    if let Some(fw) = detected {
        match validate_combination(language, fw) {
            Ok(()) => Ok(fw),
            Err(e) => Err(e),
        }
    } else {
        Ok(default_framework_for_language(language))
    }
}

/// The structure tier walk, against a root already resolved.
fn resolve_structure(
    fs: &FileSystem,
    cache: &ProjectCache,
    language: Language,
    language_str: &str,
    project_root: &Option<String>,
    requested: StructureType,
    Ghost(source): Ghost<Seq<char>>,
) -> (r: StructureType)
    requires
        language_str@ == spec_language_name(language),
        match project_root {
            Option::Some(d) => spec_root_of(*fs, source, language) == Option::Some(d@),
            Option::None => spec_root_of(*fs, source, language) is None,
        },
    ensures
        ({
            let opts = GeneratorOptions {
                structure: requested,
                language: Option::Some(language),
                framework: Option::None,
                create: false,
                dry_run: false,
            };
            r == spec_structure_of(*fs, cache@, source, opts, language)
        }),
{
    if !matches!(requested, StructureType::Maven) {
        return requested;
    }
    match project_root {
        Option::Some(root_str) => {
            let mut cached_structure: Option<StructureType> = None;
            if let Some(entry) = get_cache_entry(cache, root_str.as_str(), language_str) {
                let config_files = config_files_for_language(language);
                if !crate::cache::is_cache_stale(
                    fs,
                    root_str.as_str(),
                    entry.last_used,
                    &config_files,
                ) {
                    cached_structure = parse_structure(entry.structure.as_str());
                }
            }
            proof {
                assert(cached_structure == spec_cached_structure(
                    *fs,
                    cache@,
                    spec_root_of(*fs, source, language),
                    language,
                ));
            }
            match cached_structure {
                Option::Some(s) => s,
                Option::None => {
                    match detect_structure(fs, root_str.as_str(), language) {
                        Ok(s) => s,
                        Err(_) => requested,
                    }
                },
            }
        },
        Option::None => requested,
    }
}

/// One whole resolution: resolve language, root, framework and
/// structure, refresh the cache, map the source path to its test
/// path, and either report the existing test location or generate
/// (or preview) the skeleton. The file system is the in-memory
/// double; the caller persists the cache and, on a real disk, the
/// recorded write.
pub fn generate(
    fs: &mut FileSystem,
    cache: &mut ProjectCache,
    source_path: &str,
    options: GeneratorOptions,
) -> (r: Result<GeneratorResult, TestsmithError>)
    ensures
        final(fs).mtimes() == old(fs).mtimes(),
        final(fs).dirs() == old(fs).dirs(),
        options.dry_run ==> final(fs).files() == old(fs).files(),
        r is Err ==> final(fs).files() == old(fs).files(),
        options.language is None && extension_seq(source_path@) is None ==> (r matches Err(
            TestsmithError::InvalidSourceFile { reason },
        ) && reason@ == "File has no extension"@ && final(cache)@ == old(cache)@),
        options.language is None && (extension_seq(source_path@) matches Some(e)
            && spec_language_for_extension(e) is None) ==> (r matches Err(
            TestsmithError::UnsupportedLanguage { language },
        ) && language@ == extension_seq(source_path@)->Some_0 && final(cache)@ == old(cache)@),
        ({
            let lang = spec_lang_of(source_path@, options);
            lang is Some ==> {
                let l = lang->Some_0;
                let fw = spec_framework_of(*old(fs), old(cache)@, source_path@, options, l);
                &&& (fw matches Result::Err(f) ==> (r matches Err(
                    TestsmithError::InvalidCombination { language: ln, framework: fn_ },
                ) && ln@ == spec_language_name(l) && fn_@ == spec_framework_name(f)
                    && final(cache)@ == old(cache)@))
                &&& (fw is Ok ==> {
                    let f = fw->Ok_0;
                    let st = spec_structure_of(*old(fs), old(cache)@, source_path@, options, l);
                    let outcome = spec_path_outcome(*old(fs), source_path@, st);
                    &&& (spec_root_of(*old(fs), source_path@, l) matches Some(rt)
                        ==> exists|t: u64|
                        final(cache)@ == old(cache)@.insert(
                            (rt, spec_language_name(l)),
                            CacheEntryView {
                                framework: spec_framework_name(f),
                                structure: crate::cli::spec_structure_name(st),
                                last_used: t,
                            },
                        ))
                    &&& (spec_root_of(*old(fs), source_path@, l) is None ==> final(cache)@
                        == old(cache)@)
                    &&& (outcome == SpecPathOutcome::Missing ==> (r matches Err(
                        TestsmithError::FileNotFound { path },
                    ) && path@ == source_path@))
                    &&& (outcome == SpecPathOutcome::NoMainSegment ==> (r matches Err(
                        TestsmithError::InvalidPath { path, reason },
                    ) && path@ == source_path@ && reason@
                        == "Path does not contain 'src/main' directory"@))
                    &&& (outcome == SpecPathOutcome::NoFileName ==> (r matches Err(
                        TestsmithError::InvalidPath { path, reason },
                    ) && path@ == source_path@ && reason@ == "File has no name"@))
                    &&& (outcome is Resolved ==> {
                        let tp = outcome->Resolved_0;
                        let exists0 = old(fs).files().contains_key(tp);
                        let has_mod = spec_has_module(*old(fs), st, tp);
                        let found = (exists0 && has_mod) || (exists0 && !has_mod && st
                            != StructureType::SameFile);
                        &&& (found && has_mod ==> (r matches Ok(res) && res.test_file_path@
                            == tp && !res.created && !res.dry_run
                            && final(fs).files() == old(fs).files()
                            && res.line_number as int == spec_i32_line(
                            spec_found_line(old(fs).files()[tp]),
                        )))
                        &&& (found && !has_mod ==> (r matches Ok(res) && res.test_file_path@
                            == tp && !res.created && !res.dry_run
                            && final(fs).files() == old(fs).files()
                            && res.line_number as int == spec_i32_line(
                            spec_todo_line(old(fs).files()[tp]),
                        )))
                        &&& (!found && !options.create ==> (r matches Err(
                            TestsmithError::FileNotFound { path },
                        ) && path@ == tp))
                        &&& (!found && options.create && spec_lookup(spec_default_rows(), l, f)
                            is None ==> (r matches Err(TestsmithError::InvalidCombination {
                            language: ln,
                            framework: fn_,
                        }) && ln@ == spec_language_name(l) && fn_@ == spec_framework_name(f)))
                        &&& (!found && options.create && spec_lookup(spec_default_rows(), l, f)
                            is Some ==> {
                            let k = spec_lookup(spec_default_rows(), l, f)->Some_0;
                            let content = spec_template_content(*old(fs), source_path@, l, k);
                            &&& (r matches Ok(res) && res.test_file_path@ == tp && res.created
                                && res.dry_run == options.dry_run && res.line_number as int == (
                            if st == StructureType::SameFile {
                                spec_i32_line(
                                    lines_seq(old(fs).files()[tp]).len()
                                        + spec_new_content_line(content),
                                )
                            } else {
                                spec_i32_line(spec_new_content_line(content))
                            }))
                            &&& (!options.dry_run && st == StructureType::SameFile
                                ==> final(fs).files() == old(fs).files().insert(
                                tp,
                                old(fs).files()[tp] + seq!['\n'] + content,
                            ))
                            &&& (!options.dry_run && st != StructureType::SameFile
                                ==> final(fs).files() == old(fs).files().insert(tp, content))
                        })
                    })
                })
            }
        }),
{
    let language: Language = if let Some(lang) = options.language {
        lang
    } else {
        match detect_language(source_path) {
            Ok(l) => l,
            Err(e) => {
                return Err(e);
            },
        }
    };
    proof {
        assert(spec_lang_of(source_path@, options) == Option::Some(language));
    }
    let project_root: Option<String> = find_project_root(fs, source_path, language);
    let language_str: String = language_name(language).to_owned();
    let framework: Framework = match resolve_framework(
        fs,
        cache,
        source_path,
        language,
        language_str.as_str(),
        &project_root,
        options.framework,
    ) {
        Ok(f) => f,
        Err(e) => {
            return Err(e);
        },
    };
    let structure: StructureType = resolve_structure(
        fs,
        cache,
        language,
        language_str.as_str(),
        &project_root,
        options.structure,
        Ghost(source_path@),
    );
    proof {
        assert(spec_framework_of(*fs, cache@, source_path@, options, language) == Result::<
            Framework,
            Framework,
        >::Ok(framework));
        assert(spec_structure_of(*fs, cache@, source_path@, options, language) == structure);
    }
    if let Some(root_str) = &project_root {
        let _ = update_cache_entry(
            cache,
            root_str.as_str(),
            language_str.as_str(),
            &framework,
            &structure,
        );
    }
    let test_path: String = match structure {
        StructureType::SameFile => {
            match SameFileResolver::new().resolve_test_path(fs, source_path, language) {
                Ok(p) => p,
                Err(e) => {
                    return Err(e);
                },
            }
        },
        StructureType::Maven | StructureType::Gradle | StructureType::Flat => {
            match MavenResolver::new().resolve_test_path(fs, source_path, language) {
                Ok(p) => p,
                Err(e) => {
                    return Err(e);
                },
            }
        },
    };
    proof {
        assert(spec_path_outcome(*fs, source_path@, structure) == SpecPathOutcome::Resolved(
            test_path@,
        ));
    }
    let mut test_exists = false;
    let mut has_test_module = false;
    if matches!(structure, StructureType::SameFile) {
        match fs.read_file(test_path.as_str()) {
            Ok(content) => {
                test_exists = true;
                let cv = chars_of(content.as_str());
                has_test_module = contains_chars(&cv, &chars_of("#[cfg(test)]"));
            },
            Err(_) => {},
        }
    } else {
        test_exists = fs.file_exists(test_path.as_str());
    }
    proof {
        assert(has_test_module == spec_has_module(*fs, structure, test_path@));
    }
    if test_exists && has_test_module {
        let line_number: i32 = match fs.read_file(test_path.as_str()) {
            Ok(content) => {
                let cv = chars_of(content.as_str());
                match find_line_with(&cv, &chars_of("#[test]")) {
                    Option::Some(i) => line_idx_to_i32(i),
                    Option::None => {
                        match find_line_with(&cv, &chars_of("// TODO")) {
                            Option::Some(i) => line_idx_to_i32(i),
                            Option::None => 1,
                        }
                    },
                }
            },
            Err(_) => 1,
        };
        return Ok(
            GeneratorResult {
                test_file_path: test_path,
                created: false,
                dry_run: false,
                line_number,
            },
        );
    } else if test_exists && !has_test_module && !matches!(structure, StructureType::SameFile) {
        let line_number: i32 = match fs.read_file(test_path.as_str()) {
            Ok(content) => {
                let cv = chars_of(content.as_str());
                match find_line_with_either(&cv, &chars_of("// TODO"), &chars_of("TODO:")) {
                    Option::Some(i) => line_idx_to_i32(i),
                    Option::None => 1,
                }
            },
            Err(_) => 1,
        };
        return Ok(
            GeneratorResult {
                test_file_path: test_path,
                created: false,
                dry_run: false,
                line_number,
            },
        );
    }
    if !options.create {
        return Err(TestsmithError::FileNotFound { path: test_path });
    }
    let registry = TemplateRegistry::new();
    let generator: TemplateKind = match registry.get_generator(language, framework) {
        Ok(g) => g,
        Err(e) => {
            return Err(e);
        },
    };
    let mut context = TemplateContext::new(
        source_path.to_owned(),
        test_path.clone(),
        language,
        framework,
    );
    if matches!(language, Language::Java) {
        match JavaJunitTemplate::extract_package_name(fs, source_path) {
            Ok(Some(pkg)) => {
                context = context.with_package_name(pkg);
            },
            _ => {},
        }
        match JavaJunitTemplate::extract_class_name(source_path) {
            Ok(class_name) => {
                context = context.with_class_name(class_name);
            },
            Err(_) => {},
        }
    }
    let content: String = match generator.generate(&context) {
        Ok(c) => c,
        Err(e) => {
            return Err(e);
        },
    };
    proof {
        assert(content@ == spec_template_content(*fs, source_path@, language, generator));
    }
    let line_number: i32 = if matches!(structure, StructureType::SameFile) {
        match fs.read_file(test_path.as_str()) {
            Ok(existing) => {
                let ev = chars_of(existing.as_str());
                let existing_lines = count_lines(&ev);
                let cv = chars_of(content.as_str());
                match find_line_with(&cv, &chars_of("// TODO")) {
                    Option::Some(i) => sum_line_idx_to_i32(existing_lines, i),
                    Option::None => sum_line_to_i32(existing_lines, 1),
                }
            },
            Err(_) => 1,
        }
    } else {
        let cv = chars_of(content.as_str());
        match find_line_with(&cv, &chars_of("// TODO")) {
            Option::Some(i) => line_idx_to_i32(i),
            Option::None => 1,
        }
    };
    if !options.dry_run {
        if matches!(structure, StructureType::SameFile) {
            match fs.append_to_file(test_path.as_str(), content.as_str()) {
                Ok(()) => {},
                Err(e) => {
                    return Err(e);
                },
            }
        } else {
            match fs.write_file_new(test_path.as_str(), content.as_str()) {
                Ok(()) => {},
                Err(e) => {
                    return Err(e);
                },
            }
        }
    }
    Ok(
        GeneratorResult {
            test_file_path: test_path,
            created: true,
            dry_run: options.dry_run,
            line_number,
        },
    )
}

/// Classifies a source file's structure by extension alone: Rust
/// sources keep tests in the file, everything else defaults to the
/// mirrored-directory layout.
pub fn auto_detect_structure(source_file: &str) -> (r: StructureType)
    ensures
        r == (if extension_seq(source_file@) == Option::Some("rs"@) {
            StructureType::SameFile
        } else {
            StructureType::Maven
        }),
{
    match crate::paths::extension_of(source_file) {
        Option::Some(e) => {
            if crate::text::eq_chars(&e, &chars_of("rs")) {
                StructureType::SameFile
            } else {
                StructureType::Maven
            }
        },
        Option::None => StructureType::Maven,
    }
}

} // verus!
