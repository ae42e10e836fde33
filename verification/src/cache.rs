//! The library's hash cache: file names, sizes and timestamps mapped to
//! SHA-256 hashes, so unchanged files are never hashed twice.
//!
//! A file that matches a cached entry in name, size, birth and modification
//! time is taken to have the cached hash; any difference means the hash is
//! computed anew and recorded. Reading and writing the cache file is the
//! embedding program's business.
use crate::timestamp::NsTimestamp;
use vstd::prelude::*;

verus! {

broadcast use crate::timestamp::lemma_view_injective;

/// One cached file: its identifying characteristics and its hash.
#[derive(Debug, Clone)]
pub struct FileCacheInfo {
    /// Name of the file.
    pub filename: String,
    /// Size of the file, in bytes.
    pub file_size: u64,
    /// When the file was created.
    pub birth_timestamp: NsTimestamp,
    /// When the file's data was last modified.
    pub modify_timestamp: NsTimestamp,
    /// The SHA-256 hash of the file's contents, in lowercase hexadecimal.
    pub sha256: String,
}

/// The data kept in the cache file.
#[derive(Debug, Clone)]
pub struct LibraryCache {
    /// The cached files, in insertion order.
    pub files: Vec<FileCacheInfo>,
}

/// Whether a cached entry is for exactly this file.
pub open spec fn entry_matches(
    e: FileCacheInfo,
    filename: Seq<char>,
    file_size: u64,
    birth: int,
    modify: int,
) -> bool {
    &&& e.file_size == file_size
    &&& e.birth_timestamp@ == birth
    &&& e.modify_timestamp@ == modify
    &&& e.filename@ == filename
}

/// The position of the first entry for this file, or the length.
pub open spec fn cache_find_from(
    files: Seq<FileCacheInfo>,
    filename: Seq<char>,
    file_size: u64,
    birth: int,
    modify: int,
    i: int,
) -> int
    decreases files.len() - i,
{
    if i < 0 || i >= files.len() {
        files.len() as int
    } else if entry_matches(files[i], filename, file_size, birth, modify) {
        i
    } else {
        cache_find_from(files, filename, file_size, birth, modify, i + 1)
    }
}

/// The position of the first entry for this file in the whole cache.
pub open spec fn cache_find(
    files: Seq<FileCacheInfo>,
    filename: Seq<char>,
    file_size: u64,
    birth: int,
    modify: int,
) -> int {
    cache_find_from(files, filename, file_size, birth, modify, 0)
}

/// What the found position means.
pub proof fn lemma_cache_find(
    files: Seq<FileCacheInfo>,
    filename: Seq<char>,
    file_size: u64,
    birth: int,
    modify: int,
)
    ensures
        0 <= cache_find(files, filename, file_size, birth, modify) <= files.len(),
        cache_find(files, filename, file_size, birth, modify) < files.len() ==> entry_matches(
            files[cache_find(files, filename, file_size, birth, modify)],
            filename,
            file_size,
            birth,
            modify,
        ),
        forall|k: int|
            0 <= k < cache_find(files, filename, file_size, birth, modify) ==> !entry_matches(
                #[trigger] files[k],
                filename,
                file_size,
                birth,
                modify,
            ),
{
    lemma_cache_find_from(files, filename, file_size, birth, modify, 0);
}

proof fn lemma_cache_find_from(
    files: Seq<FileCacheInfo>,
    filename: Seq<char>,
    file_size: u64,
    birth: int,
    modify: int,
    i: int,
)
    requires
        0 <= i <= files.len(),
    ensures
        i <= cache_find_from(files, filename, file_size, birth, modify, i) <= files.len(),
        cache_find_from(files, filename, file_size, birth, modify, i) < files.len()
            ==> entry_matches(
            files[cache_find_from(files, filename, file_size, birth, modify, i)],
            filename,
            file_size,
            birth,
            modify,
        ),
        forall|k: int|
            i <= k < cache_find_from(files, filename, file_size, birth, modify, i)
                ==> !entry_matches(#[trigger] files[k], filename, file_size, birth, modify),
    decreases files.len() - i,
{
    if i < files.len() && !entry_matches(files[i], filename, file_size, birth, modify) {
        lemma_cache_find_from(files, filename, file_size, birth, modify, i + 1);
    }
}

/// The name of what the SHA-256 computation returns for given bytes: its
/// hexadecimal text.
pub uninterp spec fn sha256_hex_of(bytes: Seq<u8>) -> Seq<char>;

/// Relies on `sha256::digest`: the lowercase hexadecimal SHA-256 text of
/// the bytes, two digits for each of the thirty-two digest bytes, a pure
/// function of the input.
#[verifier::external_body]
fn sha256_digest_hex(bytes: &Vec<u8>) -> (r: String)
    ensures
        r@ == sha256_hex_of(bytes@),
        r@.len() == 64,
{
    sha256::digest(bytes)
}

/// The cache around its file path.
#[derive(Debug, Clone)]
pub struct LibraryCacheLock {
    inner: LibraryCache,
    file_path: String,
}

impl LibraryCacheLock {
    /// The cached entries, as a value.
    pub closed spec fn spec_files(&self) -> Seq<FileCacheInfo> {
        self.inner.files@
    }

    /// The cache file's path, as a value.
    pub closed spec fn spec_file_path(&self) -> Seq<char> {
        self.file_path@
    }

    /// The cache read from its file, or a fresh empty one where the file
    /// did not exist. The embedding program reads and decodes the file.
    pub fn read_or_create_new(inner: Option<LibraryCache>, cache_file_path: String) -> (r:
        LibraryCacheLock)
        ensures
            r.spec_file_path() == cache_file_path@,
            match inner {
                Some(c) => r.spec_files() == c.files@,
                None => r.spec_files() == Seq::<FileCacheInfo>::empty(),
            },
    {
        match inner {
            Some(c) => LibraryCacheLock { inner: c, file_path: cache_file_path },
            None => {
                let files: Vec<FileCacheInfo> = Vec::new();
                assert(files@ =~= Seq::<FileCacheInfo>::empty());
                LibraryCacheLock { inner: LibraryCache { files }, file_path: cache_file_path }
            },
        }
    }

    /// The cached entries, in order.
    pub fn files(&self) -> (r: &Vec<FileCacheInfo>)
        ensures
            r@ == self.spec_files(),
    {
        &self.inner.files
    }

    /// The cache file's path.
    pub fn file_path(&self) -> (r: &str)
        ensures
            r@ == self.spec_file_path(),
    {
        self.file_path.as_str()
    }

    /// The cached hash of the file with exactly these characteristics,
    /// where the cache has one.
    pub fn find_cached_sha256_hash(
        &self,
        filename: &str,
        file_size: u64,
        birth_timestamp: NsTimestamp,
        modify_timestamp: NsTimestamp,
    ) -> (r: Option<String>)
        ensures
            ({
                let i = cache_find(
                    self.spec_files(),
                    filename@,
                    file_size,
                    birth_timestamp@,
                    modify_timestamp@,
                );
                match r {
                    Some(h) => i < self.spec_files().len() && h@ == self.spec_files()[i].sha256@,
                    None => i == self.spec_files().len(),
                }
            }),
    {
        proof {
            lemma_cache_find(
                self.spec_files(),
                filename@,
                file_size,
                birth_timestamp@,
                modify_timestamp@,
            );
        }
        let ghost fs = self.spec_files();
        let n = self.inner.files.len();
        let mut k: usize = 0;
        while k < n
            invariant
                fs == self.spec_files(),
                self.inner.files@ == fs,
                n == fs.len(),
                k <= n,
                cache_find(fs, filename@, file_size, birth_timestamp@, modify_timestamp@)
                    == cache_find_from(
                    fs,
                    filename@,
                    file_size,
                    birth_timestamp@,
                    modify_timestamp@,
                    k as int,
                ),
            decreases n - k,
        {
            let e = &self.inner.files[k];
            if e.file_size == file_size && e.birth_timestamp == birth_timestamp
                && e.modify_timestamp == modify_timestamp && crate::codec::str_eq(
                e.filename.as_str(),
                filename,
            ) {
                return Some(e.sha256.clone());
            }
            k = k + 1;
        }
        None
    }

    /// Records a hash: the first entry with exactly these characteristics
    /// is replaced, or a new entry is appended where none matches.
    pub fn insert(
        &mut self,
        filename: String,
        file_size: u64,
        birth_timestamp: NsTimestamp,
        modify_timestamp: NsTimestamp,
        sha256: String,
    )
        ensures
            ({
                let fs = old(self).spec_files();
                let i = cache_find(fs, filename@, file_size, birth_timestamp@, modify_timestamp@);
                let e = final(self).spec_files()[i];
                &&& final(self).spec_file_path() == old(self).spec_file_path()
                &&& i < final(self).spec_files().len()
                &&& entry_matches(e, filename@, file_size, birth_timestamp@, modify_timestamp@)
                &&& e.sha256@ == sha256@
                &&& (i < fs.len() ==> final(self).spec_files() == fs.update(i, e))
                &&& (i == fs.len() ==> final(self).spec_files() == fs.push(e))
            }),
    {
        proof {
            lemma_cache_find(
                old(self).spec_files(),
                filename@,
                file_size,
                birth_timestamp@,
                modify_timestamp@,
            );
        }
        let ghost fs = old(self).spec_files();
        let entry = FileCacheInfo {
            filename,
            file_size,
            birth_timestamp,
            modify_timestamp,
            sha256,
        };
        let n = self.inner.files.len();
        let mut k: usize = 0;
        while k < n
            invariant
                fs == old(self).spec_files(),
                self == old(self),
                self.inner.files@ == fs,
                n == fs.len(),
                k <= n,
                entry.filename@ == filename@,
                entry.file_size == file_size,
                entry.birth_timestamp@ == birth_timestamp@,
                entry.modify_timestamp@ == modify_timestamp@,
                entry.sha256@ == sha256@,
                cache_find(fs, filename@, file_size, birth_timestamp@, modify_timestamp@)
                    == cache_find_from(
                    fs,
                    filename@,
                    file_size,
                    birth_timestamp@,
                    modify_timestamp@,
                    k as int,
                ),
            decreases n - k,
        {
            let e = &self.inner.files[k];
            if e.file_size == entry.file_size && e.birth_timestamp == entry.birth_timestamp
                && e.modify_timestamp == entry.modify_timestamp && crate::codec::str_eq(
                e.filename.as_str(),
                entry.filename.as_str(),
            ) {
                let ghost i = k as int;
                proof {
                    assert(entry_matches(fs[i], filename@, file_size, birth_timestamp@,
                        modify_timestamp@));
                    assert(cache_find_from(
                        fs,
                        filename@,
                        file_size,
                        birth_timestamp@,
                        modify_timestamp@,
                        i,
                    ) == i);
                }
                self.inner.files[k] = entry;
                assert(self.spec_files() =~= fs.update(i, self.spec_files()[i]));
                return ;
            }
            k = k + 1;
        }
        self.inner.files.push(entry);
        assert(self.spec_files() =~= fs.push(self.spec_files()[fs.len() as int]));
    }

    /// Computes the hash of a file's bytes and records it in the cache
    /// under the file's characteristics; hands the hexadecimal hash text
    /// back. The cached text for these bytes is always the same
    /// sixty-four-digit value.
    pub fn insert_computed_hash(
        &mut self,
        filename: String,
        file_size: u64,
        birth_timestamp: NsTimestamp,
        modify_timestamp: NsTimestamp,
        bytes: &Vec<u8>,
    ) -> (r: String)
        ensures
            r@ == sha256_hex_of(bytes@),
            r@.len() == 64,
            ({
                let fs = old(self).spec_files();
                let i = cache_find(fs, filename@, file_size, birth_timestamp@, modify_timestamp@);
                let e = final(self).spec_files()[i];
                &&& i < final(self).spec_files().len()
                &&& entry_matches(e, filename@, file_size, birth_timestamp@, modify_timestamp@)
                &&& e.sha256@ == sha256_hex_of(bytes@)
            }),
    {
        let hash = sha256_digest_hex(bytes);
        let text = hash.clone();
        self.insert(filename, file_size, birth_timestamp, modify_timestamp, hash);
        text
    }
}

} // verus!
