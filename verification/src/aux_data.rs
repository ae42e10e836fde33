//! Auxiliary library data: everything about a library that is not a proof
//! entry, such as the tags' names and colors.
use crate::lockfile::LockfileHandle;
use vstd::prelude::*;

verus! {

/// What is known about one tag.
#[derive(Debug)]
pub struct TagInfo {
    /// Stable identifier of the tag.
    pub id: String,
    /// Human-readable name of the tag.
    pub name: String,
    /// The tag's color; not recorded yet.
    pub color: (),
}

/// The data kept in the auxiliary file.
#[derive(Debug)]
pub struct LibraryAuxData {
    /// The known tags.
    pub tags: Vec<TagInfo>,
}

/// Auxiliary data held together with the lock on its file.
#[derive(Debug)]
pub struct LibraryAuxDataLock {
    /// The data that was read.
    pub inner: LibraryAuxData,
    /// The lock handle guarding the auxiliary file.
    pub lockfile: LockfileHandle,
}

impl LibraryAuxDataLock {
    /// The auxiliary data read under its lock, or fresh empty data where
    /// the file did not exist; built by the embedding program once it
    /// holds the lock.
    pub fn read_or_create_new_safe(inner: Option<LibraryAuxData>, lockfile: LockfileHandle) -> (r:
        LibraryAuxDataLock)
        ensures
            r.lockfile == lockfile,
            match inner {
                Some(d) => r.inner.tags@ == d.tags@,
                None => r.inner.tags@ == Seq::<TagInfo>::empty(),
            },
    {
        match inner {
            Some(d) => LibraryAuxDataLock { inner: d, lockfile },
            None => {
                let tags: Vec<TagInfo> = Vec::new();
                assert(tags@ =~= Seq::<TagInfo>::empty());
                LibraryAuxDataLock { inner: LibraryAuxData { tags }, lockfile }
            },
        }
    }
}

} // verus!
