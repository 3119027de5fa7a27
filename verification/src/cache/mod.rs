//! The persisted per-project resolution cache: a mapping from project
//! root and language to the framework and structure last used there,
//! with a staleness rule over the project's marker files. Loading and
//! saving the cache file is the host's concern; the library works on
//! the in-memory value.
use vstd::prelude::*;

use crate::cli::{spec_framework_name, spec_structure_name, framework_name, structure_name,
    Framework, StructureType};
use crate::error::TestsmithError;
use crate::file_ops::FileSystem;
use crate::paths::{join_path, join_seq};
use crate::text::strs_view;

verus! {

/// Cached data for one language within one project.
pub struct LanguageCache {
    pub framework: String,
    pub structure: String,
    pub last_used: u64,
}

/// The mathematical image of a cache entry.
pub ghost struct CacheEntryView {
    pub framework: Seq<char>,
    pub structure: Seq<char>,
    pub last_used: u64,
}

impl View for LanguageCache {
    type V = CacheEntryView;

    open spec fn view(&self) -> CacheEntryView {
        CacheEntryView {
            framework: self.framework@,
            structure: self.structure@,
            last_used: self.last_used,
        }
    }
}

/// The map read off the cache rows; a later row for the same root and
/// language overrides an earlier one.
pub open spec fn rows_view(l: Seq<((String, String), LanguageCache)>) -> Map<
    (Seq<char>, Seq<char>),
    CacheEntryView,
>
    decreases l.len(),
{
    if l.len() == 0 {
        Map::empty()
    } else {
        rows_view(l.drop_last()).insert((l.last().0.0@, l.last().0.1@), l.last().1@)
    }
}

proof fn lemma_rows_view_last(
    l: Seq<((String, String), LanguageCache)>,
    k: (Seq<char>, Seq<char>),
    i: int,
)
    requires
        0 <= i < l.len(),
        (l[i].0.0@, l[i].0.1@) == k,
        forall|j: int| i < j < l.len() ==> (l[j].0.0@, l[j].0.1@) != k,
    ensures
        rows_view(l).contains_key(k),
        rows_view(l)[k] == l[i].1@,
    decreases l.len(),
{
    if i == l.len() - 1 {
    } else {
        assert(forall|j: int| 0 <= j < l.len() - 1 ==> l.drop_last()[j] == l[j]);
        lemma_rows_view_last(l.drop_last(), k, i);
    }
}

proof fn lemma_rows_view_absent(l: Seq<((String, String), LanguageCache)>, k: (Seq<char>, Seq<char>))
    requires
        forall|j: int| 0 <= j < l.len() ==> (l[j].0.0@, l[j].0.1@) != k,
    ensures
        !rows_view(l).contains_key(k),
    decreases l.len(),
{
    if l.len() > 0 {
        assert(forall|j: int| 0 <= j < l.len() - 1 ==> l.drop_last()[j] == l[j]);
        lemma_rows_view_absent(l.drop_last(), k);
    }
}

/// The complete cache: (project root, language) to cache entry.
pub struct ProjectCache {
    rows: Vec<((String, String), LanguageCache)>,
}

impl View for ProjectCache {
    type V = Map<(Seq<char>, Seq<char>), CacheEntryView>;

    closed spec fn view(&self) -> Map<(Seq<char>, Seq<char>), CacheEntryView> {
        rows_view(self.rows@)
    }
}

impl ProjectCache {
    pub fn new() -> (r: Self)
        ensures
            r@ == Map::<(Seq<char>, Seq<char>), CacheEntryView>::empty(),
    {
        ProjectCache { rows: Vec::new() }
    }

    /// Raw insertion of one decoded row, for a host that loads a
    /// persisted cache file.
    pub fn put(&mut self, project_root: &str, language: &str, entry: LanguageCache)
        ensures
            final(self)@ == old(self)@.insert((project_root@, language@), entry@),
    {
        self.rows.push(((project_root.to_owned(), language.to_owned()), entry));
        proof {
            assert(self.rows@.drop_last() =~= old(self).rows@);
        }
    }

    /// The stored rows, one per (root, language, entry), for a host
    /// that persists the cache; later rows override earlier ones.
    pub fn entries(&self) -> (r: &Vec<((String, String), LanguageCache)>)
        ensures
            rows_view(r@) == self@,
    {
        &self.rows
    }
}

/// Looks up the entry cached for this project root and language.
pub fn get_cache_entry(cache: &ProjectCache, project_root: &str, language: &str) -> (r: Option<
    LanguageCache,
>)
    ensures
        match r {
            Option::Some(e) => cache@.contains_key((project_root@, language@)) && cache@[
                (project_root@, language@)
            ] == e@,
            Option::None => !cache@.contains_key((project_root@, language@)),
        },
{
    let root_key = project_root.to_owned();
    let lang_key = language.to_owned();
    let rows = cache.entries();
    let mut i: usize = rows.len();
    while i > 0
        invariant
            root_key@ == project_root@,
            lang_key@ == language@,
            rows_view(rows@) == cache@,
            i <= rows@.len(),
            forall|j: int|
                i <= j < rows@.len() ==> (#[trigger] rows@[j].0.0@, rows@[j].0.1@) != (
                    project_root@,
                    language@,
                ),
        decreases i,
    {
        i = i - 1;
        if rows[i].0.0 == root_key && rows[i].0.1 == lang_key {
            proof {
                lemma_rows_view_last(rows@, (project_root@, language@), i as int);
            }
            let e = &rows[i].1;
            return Some(
                LanguageCache {
                    framework: e.framework.clone(),
                    structure: e.structure.clone(),
                    last_used: e.last_used,
                },
            );
        }
    }
    proof {
        lemma_rows_view_absent(rows@, (project_root@, language@));
    }
    None
}

/// Relies on std::time::SystemTime: the clock now, read as whole
/// seconds since the Unix epoch (zero if the clock sits before it).
/// The value depends on the clock, so nothing is promised of it.
#[verifier::external_body]
pub fn current_timestamp() -> u64 {
    std::time::SystemTime::now().duration_since(std::time::SystemTime::UNIX_EPOCH).unwrap_or_default().as_secs()
}

/// Replaces (or creates) the entry for this project root and
/// language, stamping it with the clock's current time.
pub fn update_cache_entry(
    cache: &mut ProjectCache,
    project_root: &str,
    language: &str,
    framework: &Framework,
    structure: &StructureType,
) -> (r: Result<(), TestsmithError>)
    ensures
        r is Ok,
        exists|t: u64|
            final(cache)@ == old(cache)@.insert(
                (project_root@, language@),
                CacheEntryView {
                    framework: spec_framework_name(*framework),
                    structure: spec_structure_name(*structure),
                    last_used: t,
                },
            ),
{
    let now = current_timestamp();
    let entry = LanguageCache {
        framework: framework_name(*framework).to_owned(),
        structure: structure_name(*structure).to_owned(),
        last_used: now,
    };
    cache.put(project_root, language, entry);
    Ok(())
}

/// A cache entry is stale exactly when some marker file under the
/// root has a modification time strictly after the entry's
/// `last_used` stamp; absent marker files (or ones without a known
/// time) never make it stale.
pub open spec fn spec_is_stale(
    fs: FileSystem,
    root: Seq<char>,
    last_used: u64,
    markers: Seq<Seq<char>>,
) -> bool {
    exists|i: int|
        0 <= i < markers.len() && {
            let p = join_seq(root, #[trigger] markers[i]);
            fs.mtimes().contains_key(p) && fs.mtimes()[p] > last_used
        }
}

pub fn is_cache_stale(
    fs: &FileSystem,
    project_root: &str,
    last_used: u64,
    config_files: &Vec<&str>,
) -> (r: bool)
    ensures
        r == spec_is_stale(*fs, project_root@, last_used, strs_view(config_files@)),
{
    let mut k: usize = 0;
    while k < config_files.len()
        invariant
            k <= config_files@.len(),
            forall|i: int|
                0 <= i < k ==> {
                    let p = join_seq(project_root@, #[trigger] strs_view(config_files@)[i]);
                    !(fs.mtimes().contains_key(p) && fs.mtimes()[p] > last_used)
                },
        decreases config_files@.len() - k,
    {
        let path = join_path(project_root, config_files[k]);
        match fs.file_mtime(path.as_str()) {
            Option::Some(t) => {
                if t > last_used {
                    proof {
                        let p = join_seq(project_root@, strs_view(config_files@)[k as int]);
                        assert(fs.mtimes().contains_key(p) && fs.mtimes()[p] > last_used);
                    }
                    return true;
                }
            },
            Option::None => {},
        }
        k = k + 1;
    }
    false
}

} // verus!
