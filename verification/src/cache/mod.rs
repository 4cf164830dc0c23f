pub mod file_cache;
pub mod json_cache;

use vstd::prelude::*;

verus! {

/// What a cache path names on disk.
#[derive(Debug, Clone, Copy, PartialEq, Eq, Structural)]
pub enum PathKind {
    /// Nothing, or something that is neither a file nor a directory.
    Missing,
    /// A regular file.
    File,
    /// A directory.
    Directory,
}

/// What storing an entry does to its path.
#[derive(Debug, Clone, Copy, PartialEq, Eq, Structural)]
pub enum PutAction {
    /// Create the directory and all its parents; no entry is written.
    CreateDirAll,
    /// Write the serialised entry to the file.
    WriteFile,
    /// Leave the path as it is.
    Keep,
}

} // verus!
