//! The library database: one entry for every unique proof file, keyed by
//! content hash, shared across libraries.
//!
//! Reading and writing the database file under its lock is the embedding
//! program's business; lookup and insertion are decided here.
use crate::lockfile::LockfileHandle;
use crate::timestamp::NsTimestamp;
use crate::uuid_string::UuidString;
use vstd::prelude::*;

verus! {

/// Basic metadata about a file, as a file status call reports it.
#[derive(Debug, Clone, Copy)]
pub struct FileStat {
    /// Size of the file, in bytes.
    pub size: u64,
    /// When the file was created on disk.
    pub timestamp_birth: NsTimestamp,
    /// When the file was last read.
    pub timestamp_access: NsTimestamp,
    /// When the data inside the file was last modified.
    pub timestamp_modification: NsTimestamp,
    /// When the file's permissions last changed.
    pub timestamp_status_change: NsTimestamp,
    /// When this status was recorded.
    pub last_check: NsTimestamp,
}

/// What kind of capture a media file is.
#[derive(Debug, Clone, Copy, PartialEq, Eq, Structural)]
pub enum MediaCategory {
    /// Not selected yet.
    Unspecified,
    PCScreenshot,
    MobileScreenshot,
    CameraPhoto,
    ObsRecording,
    ObsRecordingAutocut,
    ObsRecordingLosslessCut,
    MobileScreenRecording,
    CameraVideo,
    Other,
}

/// Identifier of a game, in textual form.
pub type GameId = String;

/// A user-assigned tag.
pub type Tag = String;

/// What the footage of a media file shows.
#[derive(Debug, Clone)]
pub enum ContentDescription {
    /// Not selected yet.
    Unspecified,
    /// Song select, the whole playthrough, and the end screen.
    GameplayNormal { game: Option<GameId> },
    /// Only gameplay, without the score screen.
    GameplayOnly { game: Option<GameId> },
    /// Only the results screen.
    ResultsScreen { game: Option<GameId> },
    /// Some other part of the game.
    GameGeneric { game: Option<GameId> },
    /// Nothing game-related.
    Other,
}

/// How far a video has been compressed, from untouched to heavily reduced.
#[derive(Debug, Clone, Copy, PartialEq, Eq, Structural)]
pub enum QualityState {
    /// Not selected yet.
    Unspecified,
    /// Straight from the recording software.
    Raw,
    /// Transcoded but visually lossless.
    Folded,
    /// Visibly compressed but readable.
    Crumpled,
    /// Compressed to the smallest useful size.
    Shredded,
}

/// Whether an entry is, or will be, linked to a performance.
#[derive(Debug, Clone, Copy, PartialEq, Eq, Structural)]
pub enum LibraryEntryKind {
    /// Not selected yet.
    Unspecified,
    /// In the library but unrelated to proofs.
    Unrelated,
    /// Shows a performance that cannot be recorded yet.
    Unsupported,
    /// Shows a performance, not yet linked to one.
    NotLinkedYet,
    /// Linked to one or more performances.
    Linked,
}

/// Metadata read from inside a media file, as key and value pairs.
pub type MediaMetadata = Vec<(String, String)>;

/// No tag occurs twice.
pub open spec fn tags_unique(tags: Seq<String>) -> bool {
    forall|i: int, j: int| 0 <= i < j < tags.len() ==> tags[i]@ != tags[j]@
}

/// One entry of the library database: a unique file and everything known
/// about it. Entries of old files stay, so the provenance of processed
/// files is never lost.
#[derive(Debug, Clone)]
pub struct LibraryEntry {
    /// UUID of the entry.
    pub uuid: UuidString,
    /// SHA-256 hash of the file, in lowercase hexadecimal.
    pub sha256: String,
    /// Known library locations of the file.
    pub library_urls: Vec<String>,
    /// Whether the file is linked to a performance.
    pub entry_kind: LibraryEntryKind,
    /// File status details, where known.
    pub file_stat: Option<FileStat>,
    /// Metadata from inside the file, where read.
    pub metadata: Option<MediaMetadata>,
    /// What kind of capture the file is.
    pub media_category: MediaCategory,
    /// What the footage shows.
    pub content_description: ContentDescription,
    /// Whether the video is already cut to the relevant performance.
    pub cut: Option<bool>,
    /// How far the video has been compressed.
    pub quality: QualityState,
    /// The entry this file was cut out from, where known.
    pub cloth: Option<UuidString>,
    /// The entry this file was processed from, where known.
    pub dry: Option<UuidString>,
    /// The entries a montage was made from, where known.
    pub clips: Option<Vec<UuidString>>,
    /// User-assigned tags; no tag occurs twice.
    pub tags: Vec<Tag>,
    /// User-added comment.
    pub comment: Option<String>,
    /// When this entry was added to the library.
    pub timestamp_added: NsTimestamp,
}

impl Default for LibraryEntry {
    /// A fresh entry: a new UUID, added now, and everything else still
    /// empty or unspecified.
    fn default() -> (r: LibraryEntry)
        ensures
            r.sha256@ == Seq::<char>::empty(),
            r.library_urls@ == Seq::<String>::empty(),
            r.entry_kind == LibraryEntryKind::Unspecified,
            r.file_stat is None,
            r.metadata is None,
            r.media_category == MediaCategory::Unspecified,
            r.content_description is Unspecified,
            r.cut is None,
            r.quality == QualityState::Unspecified,
            r.cloth is None,
            r.dry is None,
            r.clips is None,
            r.tags@ == Seq::<Tag>::empty(),
            tags_unique(r.tags@.map_values(|t: String| t)),
            r.comment is None,
    {
        let library_urls: Vec<String> = Vec::new();
        let tags: Vec<Tag> = Vec::new();
        assert(library_urls@ =~= Seq::<String>::empty());
        assert(tags@ =~= Seq::<Tag>::empty());
        LibraryEntry {
            uuid: UuidString::new_v4(),
            sha256: String::new(),
            library_urls,
            entry_kind: LibraryEntryKind::Unspecified,
            file_stat: None,
            metadata: None,
            media_category: MediaCategory::Unspecified,
            content_description: ContentDescription::Unspecified,
            cut: None,
            quality: QualityState::Unspecified,
            cloth: None,
            dry: None,
            clips: None,
            tags,
            comment: None,
            timestamp_added: NsTimestamp::now(),
        }
    }
}

/// The position of the first entry with this hash, or the length.
pub open spec fn find_sha256_from(es: Seq<LibraryEntry>, sha256: Seq<char>, i: int) -> int
    decreases es.len() - i,
{
    if i < 0 || i >= es.len() {
        es.len() as int
    } else if es[i].sha256@ == sha256 {
        i
    } else {
        find_sha256_from(es, sha256, i + 1)
    }
}

/// The position of the first entry with this hash in the whole database.
pub open spec fn find_sha256(es: Seq<LibraryEntry>, sha256: Seq<char>) -> int {
    find_sha256_from(es, sha256, 0)
}

/// What the found position means.
pub proof fn lemma_find_sha256(es: Seq<LibraryEntry>, sha256: Seq<char>)
    ensures
        0 <= find_sha256(es, sha256) <= es.len(),
        find_sha256(es, sha256) < es.len() ==> es[find_sha256(es, sha256)].sha256@ == sha256,
        forall|k: int| 0 <= k < find_sha256(es, sha256) ==> (#[trigger] es[k].sha256@) != sha256,
{
    lemma_find_sha256_from(es, sha256, 0);
}

proof fn lemma_find_sha256_from(es: Seq<LibraryEntry>, sha256: Seq<char>, i: int)
    requires
        0 <= i <= es.len(),
    ensures
        i <= find_sha256_from(es, sha256, i) <= es.len(),
        find_sha256_from(es, sha256, i) < es.len() ==> es[find_sha256_from(
            es,
            sha256,
            i,
        )].sha256@ == sha256,
        forall|k: int|
            i <= k < find_sha256_from(es, sha256, i) ==> (#[trigger] es[k].sha256@) != sha256,
    decreases es.len() - i,
{
    if i < es.len() && es[i].sha256@ != sha256 {
        lemma_find_sha256_from(es, sha256, i + 1);
    }
}

/// The library database, held together with the lock on its file.
#[derive(Debug)]
pub struct LibraryDatabaseLock {
    entries: Vec<LibraryEntry>,
    lockfile: LockfileHandle,
}

impl LibraryDatabaseLock {
    /// The entries, as a value.
    pub closed spec fn spec_entries(&self) -> Seq<LibraryEntry> {
        self.entries@
    }

    /// The lock handle guarding the database file, as a value.
    pub closed spec fn spec_lockfile(&self) -> LockfileHandle {
        self.lockfile
    }

    /// The database read from the locked file, as
    /// `read_or_create_new_safe` of the embedding program hands it out.
    pub fn new(entries: Vec<LibraryEntry>, lockfile: LockfileHandle) -> (r: LibraryDatabaseLock)
        ensures
            r.spec_entries() == entries@,
            r.spec_lockfile() == lockfile,
    {
        LibraryDatabaseLock { entries, lockfile }
    }

    /// The entries, in stored order.
    pub fn entries(&self) -> (r: &Vec<LibraryEntry>)
        ensures
            r@ == self.spec_entries(),
    {
        &self.entries
    }

    /// The lock handle guarding the database file.
    pub fn lock_handle(&self) -> (r: &LockfileHandle)
        ensures
            r == self.spec_lockfile(),
    {
        &self.lockfile
    }

    /// Gives the entries and the lock handle back, so the embedding
    /// program can write the file and remove the marker.
    pub fn into_parts(self) -> (r: (Vec<LibraryEntry>, LockfileHandle))
        ensures
            r.0@ == self.spec_entries(),
            r.1 == self.spec_lockfile(),
    {
        (self.entries, self.lockfile)
    }

    /// The first entry whose file has this hash, where the database has
    /// one: a file with a known hash is already in the library.
    pub fn find_entry_by_sha256_hash(&self, sha256: &str) -> (r: Option<&LibraryEntry>)
        ensures
            ({
                let i = find_sha256(self.spec_entries(), sha256@);
                match r {
                    Some(e) => i < self.spec_entries().len() && e == self.spec_entries()[i],
                    None => i == self.spec_entries().len(),
                }
            }),
    {
        proof {
            lemma_find_sha256(self.spec_entries(), sha256@);
        }
        let ghost es = self.spec_entries();
        let n = self.entries.len();
        let mut k: usize = 0;
        while k < n
            invariant
                es == self.spec_entries(),
                self.entries@ == es,
                n == es.len(),
                k <= n,
                find_sha256(es, sha256@) == find_sha256_from(es, sha256@, k as int),
            decreases n - k,
        {
            if crate::codec::str_eq(self.entries[k].sha256.as_str(), sha256) {
                return Some(&self.entries[k]);
            }
            k = k + 1;
        }
        None
    }

    /// Records a new file: a fresh entry carrying the hash and one library
    /// location derived from the path is appended, and its UUID handed
    /// back. Nothing checks for an existing entry with the same hash; the
    /// caller looks it up first.
    pub fn add(&mut self, file_path: &str, sha256: String) -> (r: UuidString)
        ensures
            final(self).spec_entries().len() == old(self).spec_entries().len() + 1,
            final(self).spec_entries().subrange(0, old(self).spec_entries().len() as int) == old(
                self,
            ).spec_entries(),
            ({
                let e = final(self).spec_entries().last();
                &&& e.uuid == r
                &&& e.sha256@ == sha256@
                &&& e.library_urls@.len() == 1
                &&& e.library_urls@[0]@ == "stpl://domain.example.com/"@ + file_path@
                &&& e.entry_kind == LibraryEntryKind::Unspecified
            }),
            final(self).spec_lockfile() == old(self).spec_lockfile(),
    {
        let mut url_chars: Vec<char> = Vec::new();
        crate::codec::push_lit(&mut url_chars, "stpl://domain.example.com/");
        crate::codec::push_lit(&mut url_chars, file_path);
        let url = crate::codec::chars_to_string(&url_chars);
        let mut library_urls: Vec<String> = Vec::new();
        library_urls.push(url);
        let base = LibraryEntry::default();
        let entry = LibraryEntry { sha256, library_urls, ..base };
        let uuid = entry.uuid;
        self.entries.push(entry);
        proof {
            assert(final(self).spec_entries().subrange(
                0,
                old(self).spec_entries().len() as int,
            ) =~= old(self).spec_entries());
        }
        uuid
    }
}

} // verus!
