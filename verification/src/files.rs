//! A table that remembers the contents of files by path.
//!
//! The first read of a path loads the file and files its contents in the
//! table; every later read of the path is answered from the table, whatever
//! has become of the file since. Nothing is ever dropped from the table.
//! The table does not read the filesystem itself: the caller hands in the
//! loader, or the loaded contents.

use vstd::hash_map::StringHashMap;
use vstd::prelude::*;
use crate::rules::MateError;

verus! {

/// The contents that a read of `path` yields: what the table holds for the
/// path, or else what loading the file gave.
pub open spec fn read_outcome(
    files: Map<Seq<char>, Seq<char>>,
    path: Seq<char>,
    loaded: Result<String, String>,
) -> Result<Seq<char>, MateError> {
    if files.contains_key(path) {
        Ok(files[path])
    } else {
        match loaded {
            Ok(contents) => Ok(contents@),
            Err(text) => Err(MateError::StorageError(text)),
        }
    }
}

/// The table after a read of `path`: a successful load of a path that the
/// table did not hold is filed, and nothing else changes the table.
pub open spec fn files_after_read(
    files: Map<Seq<char>, Seq<char>>,
    path: Seq<char>,
    loaded: Result<String, String>,
) -> Map<Seq<char>, Seq<char>> {
    if files.contains_key(path) {
        files
    } else {
        match loaded {
            Ok(contents) => files.insert(path, contents@),
            Err(_) => files,
        }
    }
}

/// Whether `result` carries the contents or the failure of `expected`.
pub open spec fn carries(result: Result<String, MateError>, expected: Result<Seq<char>, MateError>)
    -> bool {
    match (result, expected) {
        (Ok(contents), Ok(text)) => contents@ == text,
        (Err(reason), Err(other)) => reason == other,
        _ => false,
    }
}

/// A table of file contents by path.
pub trait FileBuffer {
    /// The contents held, by path.
    spec fn files(&self) -> Map<Seq<char>, Seq<char>>;

    /// The contents held for `path`, if any.
    fn cached(&self, path: &str) -> (hit: Option<String>)
        ensures
            match hit {
                Some(contents) => self.files().contains_key(path@) && contents@
                    == self.files()[path@],
                None => !self.files().contains_key(path@),
            },
    ;

    /// Files `contents` under `path`, in place of what the table held for
    /// the path before.
    fn remember(&mut self, path: String, contents: String)
        ensures
            final(self).files() == old(self).files().insert(path@, contents@),
    ;

    /// Ends a read of `path` that missed the table, with what loading the
    /// file gave: contents are filed and returned, a failure is returned as
    /// `StorageError` and leaves the table as it was.
    fn complete_read(&mut self, path: String, loaded: Result<String, String>) -> (result: Result<
        String,
        MateError,
    >)
        ensures
            match loaded {
                Ok(contents) => {
                    &&& result matches Ok(returned)
                    &&& returned@ == contents@
                    &&& final(self).files() == old(self).files().insert(path@, contents@)
                },
                Err(text) => {
                    &&& result == Err::<String, MateError>(MateError::StorageError(text))
                    &&& final(self).files() == old(self).files()
                },
            },
    {
        match loaded {
            Ok(contents) => {
                let returned = contents.clone();
                self.remember(path, contents);
                Ok(returned)
            },
            Err(text) => Err(MateError::StorageError(text)),
        }
    }

    /// Reads the file at `path` through the table.
    ///
    /// A path that the table holds is answered from the table and `load` is
    /// not called. Otherwise `load` is called once, on `path`, and the read
    /// ends as [`FileBuffer::complete_read`] says.
    fn read_file<F: FnOnce(&String) -> Result<String, String>>(
        &mut self,
        path: String,
        load: F,
    ) -> (result: Result<String, MateError>)
        requires
            !old(self).files().contains_key(path@) ==> call_requires(load, (&path,)),
        ensures
            old(self).files().contains_key(path@) ==> {
                &&& result matches Ok(contents)
                &&& contents@ == old(self).files()[path@]
                &&& final(self).files() == old(self).files()
            },
            !old(self).files().contains_key(path@) ==> exists|loaded: Result<String, String>|
                {
                    &&& call_ensures(load, (&path,), loaded)
                    &&& carries(result, #[trigger] read_outcome(old(self).files(), path@, loaded))
                    &&& final(self).files() == files_after_read(old(self).files(), path@, loaded)
                },
    {
        match self.cached(path.as_str()) {
            Some(contents) => Ok(contents),
            None => {
                let loaded = load(&path);
                let ghost given = loaded;
                let result = self.complete_read(path, loaded);
                proof {
                    assert(carries(result, read_outcome(old(self).files(), path@, given)));
                }
                result
            },
        }
    }
}

/// The table, kept in a hash map.
pub struct FileCache {
    entries: StringHashMap<String>,
}

impl FileCache {
    /// An empty table.
    pub fn new() -> (cache: Self)
        ensures
            cache.files() == Map::<Seq<char>, Seq<char>>::empty(),
    {
        let cache = FileCache { entries: StringHashMap::new() };
        assert(cache.files() =~= Map::<Seq<char>, Seq<char>>::empty());
        cache
    }
}

impl FileBuffer for FileCache {
    closed spec fn files(&self) -> Map<Seq<char>, Seq<char>> {
        Map::new(
            |path: Seq<char>| self.entries@.contains_key(path),
            |path: Seq<char>| self.entries@[path]@,
        )
    }

    fn cached(&self, path: &str) -> (hit: Option<String>) {
        match self.entries.get(path) {
            Some(contents) => Some(contents.clone()),
            None => None,
        }
    }

    fn remember(&mut self, path: String, contents: String) {
        self.entries.insert(path, contents);
        assert(self.files() =~= old(self).files().insert(path@, contents@));
    }
}

/// The first read of a path files what was loaded, and every later read of
/// the path returns the same contents and leaves the table alone, whatever a
/// load would give by then. A read whose load fails returns `StorageError`
/// and files nothing.
pub proof fn lemma_first_read_is_remembered(
    files: Map<Seq<char>, Seq<char>>,
    path: Seq<char>,
    first: Result<String, String>,
    later: Result<String, String>,
)
    requires
        !files.contains_key(path),
    ensures
        first matches Ok(contents) ==> {
            &&& read_outcome(files, path, first) == Ok::<Seq<char>, MateError>(contents@)
            &&& files_after_read(files, path, first).contains_key(path)
            &&& read_outcome(files_after_read(files, path, first), path, later) == Ok::<
                Seq<char>,
                MateError,
            >(contents@)
            &&& files_after_read(files_after_read(files, path, first), path, later)
                == files_after_read(files, path, first)
        },
        first matches Err(text) ==> {
            &&& read_outcome(files, path, first) == Err::<Seq<char>, MateError>(
                MateError::StorageError(text),
            )
            &&& files_after_read(files, path, first) == files
            &&& !files_after_read(files, path, first).contains_key(path)
        },
{
}

} // verus!
