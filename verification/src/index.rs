//! The library index: a quick-access list from file paths to proof UUIDs,
//! rebuilt by scanning the library directory.
//!
//! Walking the directory and reading the files is the embedding program's
//! business; which files a scan takes in, and how the index records them,
//! is decided here.
use crate::uuid_string::UuidString;
use vstd::prelude::*;

verus! {

/// Whether `s` ends in the characters of `suffix`.
pub open spec fn has_suffix(s: Seq<char>, suffix: Seq<char>) -> bool {
    s.len() >= suffix.len() && s.subrange(s.len() - suffix.len(), s.len() as int) == suffix
}

/// Whether `s` ends in `suffix`.
pub fn str_ends_with(s: &str, suffix: &str) -> (r: bool)
    ensures
        r == has_suffix(s@, suffix@),
{
    let n = s.unicode_len();
    let m = suffix.unicode_len();
    if n < m {
        return false;
    }
    let mut k: usize = 0;
    while k < m
        invariant
            n == s@.len(),
            m == suffix@.len(),
            m <= n,
            k <= m,
            forall|j: int| 0 <= j < k ==> s@[n - m + j] == suffix@[j],
        decreases m - k,
    {
        if s.get_char(n - m + k) != suffix.get_char(k) {
            proof {
                let sub = s@.subrange(n - m as int, n as int);
                assert(sub[k as int] == s@[n - m + k]);
            }
            return false;
        }
        k = k + 1;
    }
    assert(s@.subrange(n - m as int, n as int) =~= suffix@);
    true
}

/// The position of the first index record for this path, or the length.
pub open spec fn index_find_from(files: Seq<(String, UuidString)>, path: Seq<char>, i: int) -> int
    decreases files.len() - i,
{
    if i < 0 || i >= files.len() {
        files.len() as int
    } else if files[i].0@ == path {
        i
    } else {
        index_find_from(files, path, i + 1)
    }
}

/// The position of the first index record for this path.
pub open spec fn index_find(files: Seq<(String, UuidString)>, path: Seq<char>) -> int {
    index_find_from(files, path, 0)
}

/// What the found position means.
pub proof fn lemma_index_find(files: Seq<(String, UuidString)>, path: Seq<char>)
    ensures
        0 <= index_find(files, path) <= files.len(),
        index_find(files, path) < files.len() ==> files[index_find(files, path)].0@ == path,
        forall|k: int| 0 <= k < index_find(files, path) ==> (#[trigger] files[k].0@) != path,
{
    lemma_index_find_from(files, path, 0);
}

proof fn lemma_index_find_from(files: Seq<(String, UuidString)>, path: Seq<char>, i: int)
    requires
        0 <= i <= files.len(),
    ensures
        i <= index_find_from(files, path, i) <= files.len(),
        index_find_from(files, path, i) < files.len() ==> files[index_find_from(
            files,
            path,
            i,
        )].0@ == path,
        forall|k: int| i <= k < index_find_from(files, path, i) ==> (#[trigger] files[k].0@) != path,
    decreases files.len() - i,
{
    if i < files.len() && files[i].0@ != path {
        lemma_index_find_from(files, path, i + 1);
    }
}

/// No path occurs twice.
pub open spec fn paths_unique(files: Seq<(String, UuidString)>) -> bool {
    forall|i: int, j: int| 0 <= i < j < files.len() ==> files[i].0@ != files[j].0@
}

/// A mapping from library file paths to proof UUIDs: not a source of
/// truth, only a quick-access list rebuilt by rescanning the library.
#[derive(Debug, Clone)]
pub struct LibraryIndex {
    /// The recorded files: each path with its proof UUID, each path once.
    pub files: Vec<(String, UuidString)>,
}

impl LibraryIndex {
    /// An empty index, for the beginning of a scan.
    pub fn new() -> (r: LibraryIndex)
        ensures
            r.files@ == Seq::<(String, UuidString)>::empty(),
            paths_unique(r.files@),
    {
        let files: Vec<(String, UuidString)> = Vec::new();
        assert(files@ =~= Seq::<(String, UuidString)>::empty());
        LibraryIndex { files }
    }

    /// Whether a scan takes this file in: exactly the video container
    /// files.
    pub fn should_file_be_scanned(filename: &str) -> (r: bool)
        ensures
            r == (has_suffix(filename@, ".mp4"@) || has_suffix(filename@, ".mkv"@)),
    {
        str_ends_with(filename, ".mp4") || str_ends_with(filename, ".mkv")
    }

    /// Records a scanned file: the record for its path is replaced, or a
    /// new one appended where the path is new. Paths that were unique stay
    /// unique, and the path is recorded exactly once afterwards.
    pub fn record_file(&mut self, path: String, uuid: UuidString)
        ensures
            ({
                let fs = old(self).files@;
                let i = index_find(fs, path@);
                &&& (i < fs.len() ==> final(self).files@ == fs.update(i, final(self).files@[i]))
                &&& (i == fs.len() ==> final(self).files@ == fs.push(final(self).files@[i]))
                &&& i < final(self).files@.len()
                &&& final(self).files@[i].0@ == path@
                &&& final(self).files@[i].1 == uuid
                &&& (paths_unique(fs) ==> paths_unique(final(self).files@))
            }),
    {
        proof {
            lemma_index_find(old(self).files@, path@);
        }
        let ghost fs = old(self).files@;
        let n = self.files.len();
        let mut k: usize = 0;
        while k < n
            invariant
                fs == old(self).files@,
                self == old(self),
                self.files@ == fs,
                n == fs.len(),
                k <= n,
                index_find(fs, path@) == index_find_from(fs, path@, k as int),
            decreases n - k,
        {
            if crate::codec::str_eq(self.files[k].0.as_str(), path.as_str()) {
                let ghost i = k as int;
                proof {
                    assert(index_find_from(fs, path@, i) == i);
                }
                self.files[k] = (path, uuid);
                proof {
                    assert(self.files@ =~= fs.update(i, self.files@[i]));
                    if paths_unique(fs) {
                        let newfs = self.files@;
                        assert forall|a: int, b: int|
                            0 <= a < b < newfs.len() implies newfs[a].0@ != newfs[b].0@ by {
                            assert(fs[i].0@ == path@);
                            assert(newfs[a] == if a == i {
                                newfs[i]
                            } else {
                                fs[a]
                            });
                            assert(newfs[b] == if b == i {
                                newfs[i]
                            } else {
                                fs[b]
                            });
                        }
                    }
                }
                return ;
            }
            k = k + 1;
        }
        self.files.push((path, uuid));
        proof {
            let i = fs.len() as int;
            assert(self.files@ =~= fs.push(self.files@[i]));
            if paths_unique(fs) {
                let newfs = self.files@;
                assert forall|a: int, b: int|
                    0 <= a < b < newfs.len() implies newfs[a].0@ != newfs[b].0@ by {
                    assert(newfs[a] == if a == i {
                        newfs[i]
                    } else {
                        fs[a]
                    });
                    assert(newfs[b] == if b == i {
                        newfs[i]
                    } else {
                        fs[b]
                    });
                    if b == i {
                        assert(fs[a].0@ != path@);
                    }
                }
            }
        }
    }
}

} // verus!
