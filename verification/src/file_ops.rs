//! The file-system collaborator the resolution pipeline consumes: a
//! deterministic in-memory double keyed by path strings. Its state is
//! plain data, so every operation carries an exact contract; a caller
//! that fronts a real disk mirrors the relevant files into it first
//! and applies the recorded writes afterwards.
use vstd::prelude::*;

use crate::error::TestsmithError;

verus! {

/// The map read off an association list; a later entry for the same
/// key overrides an earlier one.
pub open spec fn assoc_view<V>(l: Seq<(String, V)>) -> Map<Seq<char>, V>
    decreases l.len(),
{
    if l.len() == 0 {
        Map::empty()
    } else {
        assoc_view(l.drop_last()).insert(l.last().0@, l.last().1)
    }
}

pub proof fn lemma_assoc_view_last<V>(l: Seq<(String, V)>, k: Seq<char>, i: int)
    requires
        0 <= i < l.len(),
        l[i].0@ == k,
        forall|j: int| i < j < l.len() ==> l[j].0@ != k,
    ensures
        assoc_view(l).contains_key(k),
        assoc_view(l)[k] == l[i].1,
    decreases l.len(),
{
    if i == l.len() - 1 {
    } else {
        assert(forall|j: int| 0 <= j < l.len() - 1 ==> l.drop_last()[j] == l[j]);
        lemma_assoc_view_last(l.drop_last(), k, i);
    }
}

pub proof fn lemma_assoc_view_absent<V>(l: Seq<(String, V)>, k: Seq<char>)
    requires
        forall|j: int| 0 <= j < l.len() ==> l[j].0@ != k,
    ensures
        !assoc_view(l).contains_key(k),
    decreases l.len(),
{
    if l.len() > 0 {
        assert(forall|j: int| 0 <= j < l.len() - 1 ==> l.drop_last()[j] == l[j]);
        lemma_assoc_view_absent(l.drop_last(), k);
    }
}

/// The set of names held in a list of strings.
pub open spec fn names_view(l: Seq<String>) -> Set<Seq<char>> {
    Set::new(|k: Seq<char>| exists|i: int| 0 <= i < l.len() && l[i]@ == k)
}

/// An in-memory file system: file contents, file modification times
/// (seconds since the epoch) and the set of directories, all keyed by
/// path strings.
pub struct MemoryFileSystem {
    files: Vec<(String, String)>,
    mtimes: Vec<(String, u64)>,
    dirs: Vec<String>,
}

impl MemoryFileSystem {
    /// Path to content of every file.
    pub closed spec fn files(&self) -> Map<Seq<char>, Seq<char>> {
        assoc_view(self.files@).map_values(|v: String| v@)
    }

    /// Path to modification time of every file whose time is known.
    pub closed spec fn mtimes(&self) -> Map<Seq<char>, u64> {
        assoc_view(self.mtimes@)
    }

    /// The directories that exist.
    pub closed spec fn dirs(&self) -> Set<Seq<char>> {
        names_view(self.dirs@)
    }

    pub fn new() -> (r: Self)
        ensures
            r.files() == Map::<Seq<char>, Seq<char>>::empty(),
            r.mtimes() == Map::<Seq<char>, u64>::empty(),
            r.dirs() == Set::<Seq<char>>::empty(),
    {
        let r = MemoryFileSystem { files: Vec::new(), mtimes: Vec::new(), dirs: Vec::new() };
        proof {
            assert(r.files() =~= Map::<Seq<char>, Seq<char>>::empty());
            assert(r.dirs() =~= Set::<Seq<char>>::empty());
        }
        r
    }

    /// Index of the governing entry for `key`, scanning from the end.
    fn find_file(&self, key: &String) -> (r: Option<usize>)
        ensures
            match r {
                Option::Some(i) => i < self.files@.len() && self.files@[i as int].0@ == key@
                    && self.files().contains_key(key@) && self.files()[key@]
                    == self.files@[i as int].1@,
                Option::None => !self.files().contains_key(key@),
            },
    {
        let mut i: usize = self.files.len();
        while i > 0
            invariant
                i <= self.files@.len(),
                forall|j: int| i <= j < self.files@.len() ==> self.files@[j].0@ != key@,
            decreases i,
        {
            i = i - 1;
            if self.files[i].0 == *key {
                proof {
                    lemma_assoc_view_last(self.files@, key@, i as int);
                }
                return Some(i);
            }
        }
        proof {
            lemma_assoc_view_absent(self.files@, key@);
        }
        None
    }

    pub fn file_exists(&self, path: &str) -> (r: bool)
        ensures
            r == self.files().contains_key(path@),
    {
        let key = path.to_owned();
        self.find_file(&key).is_some()
    }

    pub fn read_file(&self, path: &str) -> (r: Result<String, TestsmithError>)
        ensures
            self.files().contains_key(path@) ==> (r matches Ok(c) && c@ == self.files()[path@]),
            !self.files().contains_key(path@) ==> (r matches Err(TestsmithError::FileReadError {
                path: p,
                reason: _,
            }) && p@ == path@),
    {
        let key = path.to_owned();
        match self.find_file(&key) {
            Option::Some(i) => Ok(self.files[i].1.clone()),
            Option::None => Err(
                TestsmithError::FileReadError { path: key, reason: "File not found".to_owned() },
            ),
        }
    }

    pub fn write_file(&mut self, path: &str, content: &str)
        ensures
            final(self).files() == old(self).files().insert(path@, content@),
            final(self).mtimes() == old(self).mtimes(),
            final(self).dirs() == old(self).dirs(),
    {
        self.files.push((path.to_owned(), content.to_owned()));
        proof {
            assert(self.files@.drop_last() =~= old(self).files@);
            assert(final(self).files() =~= old(self).files().insert(path@, content@));
        }
    }

    pub fn append_to_file(&mut self, path: &str, content: &str) -> (r: Result<
        (),
        TestsmithError,
    >)
        ensures
            old(self).files().contains_key(path@) ==> r is Ok && final(self).files() == old(
                self,
            ).files().insert(path@, old(self).files()[path@] + seq!['\n'] + content@),
            !old(self).files().contains_key(path@) ==> (r matches Err(
                TestsmithError::FileWriteError { path: p, reason: _ },
            ) && p@ == path@ && final(self).files() == old(self).files()),
            final(self).mtimes() == old(self).mtimes(),
            final(self).dirs() == old(self).dirs(),
    {
        let key = path.to_owned();
        match self.find_file(&key) {
            Option::Some(i) => {
                let mut joined = self.files[i].1.clone();
                crate::text::push_char(&mut joined, '\n');
                joined.append(content);
                proof {
                    assert(joined@ =~= old(self).files()[path@] + seq!['\n'] + content@);
                }
                self.files.push((key, joined));
                proof {
                    assert(self.files@.drop_last() =~= old(self).files@);
                    assert(final(self).files() =~~= old(self).files().insert(
                        path@,
                        old(self).files()[path@] + seq!['\n'] + content@,
                    ));
                }
                Ok(())
            },
            Option::None => Err(
                TestsmithError::FileWriteError { path: key, reason: "File not found".to_owned() },
            ),
        }
    }

    pub fn set_mtime(&mut self, path: &str, t: u64)
        ensures
            final(self).mtimes() == old(self).mtimes().insert(path@, t),
            final(self).files() == old(self).files(),
            final(self).dirs() == old(self).dirs(),
    {
        self.mtimes.push((path.to_owned(), t));
        proof {
            assert(self.mtimes@.drop_last() =~= old(self).mtimes@);
        }
    }

    pub fn file_mtime(&self, path: &str) -> (r: Option<u64>)
        ensures
            match r {
                Option::Some(t) => self.mtimes().contains_key(path@) && self.mtimes()[path@] == t,
                Option::None => !self.mtimes().contains_key(path@),
            },
    {
        let key = path.to_owned();
        let mut i: usize = self.mtimes.len();
        while i > 0
            invariant
                key@ == path@,
                i <= self.mtimes@.len(),
                forall|j: int| i <= j < self.mtimes@.len() ==> self.mtimes@[j].0@ != key@,
            decreases i,
        {
            i = i - 1;
            if self.mtimes[i].0 == key {
                proof {
                    lemma_assoc_view_last(self.mtimes@, key@, i as int);
                    assert(self.mtimes().contains_key(path@));
                    assert(self.mtimes()[path@] == self.mtimes@[i as int].1);
                }
                return Some(self.mtimes[i].1);
            }
        }
        proof {
            lemma_assoc_view_absent(self.mtimes@, key@);
        }
        None
    }

    pub fn add_dir(&mut self, path: &str)
        ensures
            final(self).dirs() == old(self).dirs().insert(path@),
            final(self).files() == old(self).files(),
            final(self).mtimes() == old(self).mtimes(),
    {
        self.dirs.push(path.to_owned());
        proof {
            let l0 = old(self).dirs@;
            let l1 = self.dirs@;
            assert(forall|j: int| 0 <= j < l0.len() ==> l1[j] == l0[j]);
            assert(l1[l1.len() - 1]@ == path@);
            assert forall|k: Seq<char>|
                names_view(l1).contains(k) implies old(self).dirs().insert(path@).contains(
                k,
            ) by {
                let i = choose|i: int| 0 <= i < l1.len() && l1[i]@ == k;
                if i < l0.len() {
                    assert(l0[i]@ == k);
                }
            }
            assert forall|k: Seq<char>|
                old(self).dirs().insert(path@).contains(k) implies names_view(l1).contains(
                k,
            ) by {
                if k == path@ {
                    assert(l1[l1.len() - 1]@ == k);
                } else {
                    let i = choose|i: int| 0 <= i < l0.len() && l0[i]@ == k;
                    assert(l1[i]@ == k);
                }
            }
            assert(final(self).dirs() =~= old(self).dirs().insert(path@));
        }
    }

    pub fn dir_exists(&self, path: &str) -> (r: bool)
        ensures
            r == self.dirs().contains(path@),
    {
        let key = path.to_owned();
        let mut i: usize = 0;
        while i < self.dirs.len()
            invariant
                key@ == path@,
                i <= self.dirs@.len(),
                forall|j: int| 0 <= j < i ==> self.dirs@[j]@ != key@,
            decreases self.dirs@.len() - i,
        {
            if self.dirs[i] == key {
                proof {
                    assert(self.dirs@[i as int]@ == path@);
                }
                return true;
            }
            i = i + 1;
        }
        false
    }
}

/// The file-system handle the pipeline works against. It is backed by
/// the in-memory double; a host that works on a real disk mirrors the
/// paths of interest into it before resolving.
pub struct FileSystem {
    mem: MemoryFileSystem,
}

impl FileSystem {
    /// Path to content of every file.
    pub closed spec fn files(&self) -> Map<Seq<char>, Seq<char>> {
        self.mem.files()
    }

    /// Path to modification time of every file whose time is known.
    pub closed spec fn mtimes(&self) -> Map<Seq<char>, u64> {
        self.mem.mtimes()
    }

    /// The directories that exist.
    pub closed spec fn dirs(&self) -> Set<Seq<char>> {
        self.mem.dirs()
    }

    /// A path exists when it names a file or a directory.
    pub open spec fn spec_path_exists(&self, p: Seq<char>) -> bool {
        self.files().contains_key(p) || self.dirs().contains(p)
    }

    pub fn new_memory() -> (r: Self)
        ensures
            r.files() == Map::<Seq<char>, Seq<char>>::empty(),
            r.mtimes() == Map::<Seq<char>, u64>::empty(),
            r.dirs() == Set::<Seq<char>>::empty(),
    {
        FileSystem { mem: MemoryFileSystem::new() }
    }

    pub fn file_exists(&self, path: &str) -> (r: bool)
        ensures
            r == self.files().contains_key(path@),
    {
        self.mem.file_exists(path)
    }

    pub fn path_exists(&self, path: &str) -> (r: bool)
        ensures
            r == self.spec_path_exists(path@),
    {
        self.mem.file_exists(path) || self.mem.dir_exists(path)
    }

    pub fn dir_exists(&self, path: &str) -> (r: bool)
        ensures
            r == self.dirs().contains(path@),
    {
        self.mem.dir_exists(path)
    }

    pub fn read_file(&self, path: &str) -> (r: Result<String, TestsmithError>)
        ensures
            self.files().contains_key(path@) ==> (r matches Ok(c) && c@ == self.files()[path@]),
            !self.files().contains_key(path@) ==> (r matches Err(TestsmithError::FileReadError {
                path: p,
                reason: _,
            }) && p@ == path@),
    {
        self.mem.read_file(path)
    }

    /// Writes a fresh file, replacing any previous content. Parent
    /// directories need no creation in the in-memory double.
    pub fn write_file_new(&mut self, path: &str, content: &str) -> (r: Result<
        (),
        TestsmithError,
    >)
        ensures
            r is Ok,
            final(self).files() == old(self).files().insert(path@, content@),
            final(self).mtimes() == old(self).mtimes(),
            final(self).dirs() == old(self).dirs(),
    {
        self.mem.write_file(path, content);
        Ok(())
    }

    /// Appends to an existing file, on a fresh line; fails when the
    /// file does not exist yet.
    pub fn append_to_file(&mut self, path: &str, content: &str) -> (r: Result<
        (),
        TestsmithError,
    >)
        ensures
            old(self).files().contains_key(path@) ==> r is Ok && final(self).files() == old(
                self,
            ).files().insert(path@, old(self).files()[path@] + seq!['\n'] + content@),
            !old(self).files().contains_key(path@) ==> (r matches Err(
                TestsmithError::FileWriteError { path: p, reason: _ },
            ) && p@ == path@ && final(self).files() == old(self).files()),
            final(self).mtimes() == old(self).mtimes(),
            final(self).dirs() == old(self).dirs(),
    {
        self.mem.append_to_file(path, content)
    }

    /// Directory creation is a given in the in-memory double.
    pub fn create_parent_directories(&self, _path: &str) -> (r: Result<(), TestsmithError>)
        ensures
            r is Ok,
    {
        Ok(())
    }

    pub fn set_mtime(&mut self, path: &str, t: u64)
        ensures
            final(self).mtimes() == old(self).mtimes().insert(path@, t),
            final(self).files() == old(self).files(),
            final(self).dirs() == old(self).dirs(),
    {
        self.mem.set_mtime(path, t)
    }

    pub fn file_mtime(&self, path: &str) -> (r: Option<u64>)
        ensures
            match r {
                Option::Some(t) => self.mtimes().contains_key(path@) && self.mtimes()[path@] == t,
                Option::None => !self.mtimes().contains_key(path@),
            },
    {
        self.mem.file_mtime(path)
    }

    pub fn add_dir(&mut self, path: &str)
        ensures
            final(self).dirs() == old(self).dirs().insert(path@),
            final(self).files() == old(self).files(),
            final(self).mtimes() == old(self).mtimes(),
    {
        self.mem.add_dir(path)
    }
}

} // verus!
