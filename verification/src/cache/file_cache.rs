//! A cache of JSON files that never expire and are never overwritten.

use vstd::prelude::*;
use crate::cache::{PathKind, PutAction};
use crate::paths::{path_join, path_join_of};

verus! {

/// A cache that keeps each entry in a JSON file under `base_path`, at the
/// relative path that `get_file_path` gives for its key.
pub struct FileCache<F> {
    pub base_path: String,
    pub get_file_path: F,
}

impl<F> FileCache<F> {
    /// The file that holds the entry of `key`: the key's path joined onto
    /// the base path.
    pub fn file_path<K>(&self, key: &K) -> (r: String) where F: Fn(&K) -> String
        requires
            call_requires(self.get_file_path, (key,)),
        ensures
            exists|sub: String|
                call_ensures(self.get_file_path, (key,), sub) && r@ == path_join(
                    self.base_path@,
                    sub@,
                ),
    {
        let sub = (self.get_file_path)(key);
        path_join_of(self.base_path.as_str(), sub.as_str())
    }

    /// Whether a lookup reads the entry: exactly when its path is a file.
    pub fn is_cached(&self, kind: PathKind) -> (r: bool)
        ensures
            r == (kind == PathKind::File),
    {
        kind == PathKind::File
    }

    /// What storing an entry does: a directory at the path is created
    /// (with its parents) and nothing is written; a missing entry is written;
    /// an existing file is kept.
    pub fn put_action(&self, kind: PathKind) -> (r: PutAction)
        ensures
            kind == PathKind::Directory ==> r == PutAction::CreateDirAll,
            kind == PathKind::Missing ==> r == PutAction::WriteFile,
            kind == PathKind::File ==> r == PutAction::Keep,
    {
        match kind {
            PathKind::Directory => PutAction::CreateDirAll,
            PathKind::Missing => PutAction::WriteFile,
            PathKind::File => PutAction::Keep,
        }
    }
}

} // verus!
