//! A cache of JSON files whose entries expire after a time to live.

use vstd::prelude::*;
use crate::cache::{PathKind, PutAction};
use crate::paths::{path_join, path_join_of};

verus! {

/// A cache that keeps each entry in a JSON file under `base_path`, at the
/// relative path that `get_file_path` gives for its key. An entry is served
/// while its file is no older than `time_to_live_nanos` nanoseconds.
pub struct JsonCache<F> {
    pub time_to_live_nanos: u128,
    pub base_path: String,
    pub get_file_path: F,
}

/// Whether an entry is served: its path is a file, modified no longer than
/// the time to live ago.
pub open spec fn is_fresh(kind: PathKind, age_nanos: u128, time_to_live_nanos: u128) -> bool {
    kind == PathKind::File && age_nanos <= time_to_live_nanos
}

/// Law: an entry served at some age is served at every younger age.
pub proof fn lemma_fresh_when_younger(kind: PathKind, older: u128, younger: u128, ttl: u128)
    requires
        is_fresh(kind, older, ttl),
        younger <= older,
    ensures
        is_fresh(kind, younger, ttl),
{
}

/// Law: an entry that has just been written is served, whatever the time
/// to live.
pub proof fn lemma_fresh_after_write(ttl: u128)
    ensures
        is_fresh(PathKind::File, 0, ttl),
{
}

impl<F> JsonCache<F> {
    /// The file that holds the entry of `key`: the key's path joined onto
    /// the base path.
    pub fn file_path<K>(&self, key: &K) -> (r: String) where F: Fn(&K) -> String
        requires
            call_requires(self.get_file_path, (key,)),
        ensures
            exists|sub: String|
                call_ensures(self.get_file_path, (key,), sub) && r@ == path_join(
                    self.base_path@,
                    sub@,
                ),
    {
        let sub = (self.get_file_path)(key);
        path_join_of(self.base_path.as_str(), sub.as_str())
    }

    /// Whether a lookup reads the entry, given what its path names and how
    /// long ago the file was modified.
    pub fn is_cached(&self, kind: PathKind, age_nanos: u128) -> (r: bool)
        ensures
            r == is_fresh(kind, age_nanos, self.time_to_live_nanos),
    {
        kind == PathKind::File && !(age_nanos > self.time_to_live_nanos)
    }

    /// What storing an entry does: a directory at the path is created
    /// (with its parents) and nothing is written; otherwise the entry is
    /// written, replacing any older one.
    pub fn put_action(&self, kind: PathKind) -> (r: PutAction)
        ensures
            kind == PathKind::Directory ==> r == PutAction::CreateDirAll,
            kind != PathKind::Directory ==> r == PutAction::WriteFile,
    {
        match kind {
            PathKind::Directory => PutAction::CreateDirAll,
            _ => PutAction::WriteFile,
        }
    }
}

} // verus!
