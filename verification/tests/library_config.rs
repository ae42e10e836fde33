use scoretracker_core::cache::{LibraryCache, LibraryCacheLock};
use scoretracker_core::config::{path_join, Config};
use scoretracker_core::database::LibraryDatabaseLock;
use scoretracker_core::example_add;
use scoretracker_core::gh3::GuitarHero3;
use scoretracker_core::index::LibraryIndex;
use scoretracker_core::lockfile::LockfileHandle;
use scoretracker_core::songdb::{Song as _, SongAlbumInfo};
use scoretracker_core::timestamp::NsTimestamp;
use scoretracker_core::uuid_string::UuidString;
use scoretracker_core::yarg::YARG;

fn handle(path: &str) -> LockfileHandle {
    LockfileHandle::new(path.to_string()).unwrap()
}

#[test]
fn example_add_sums() {
    assert_eq!(example_add(2, 2), 4);
}

#[test]
fn config_paths_join_with_one_separator() {
    let config = Config {
        domain_name: "d".to_string(),
        shared_data_repo_path: "/srv/shared".to_string(),
        default_library_dir_path: "/srv/library/".to_string(),
    };
    assert_eq!(
        config.library_database_path(),
        "/srv/shared/library_database.json"
    );
    assert_eq!(
        config.default_library_index_path(),
        "/srv/library/library_index.json"
    );
    assert_eq!(
        config.default_library_cache_path(),
        "/srv/library/library_cache.json"
    );
    assert_eq!(
        config.default_library_aux_data_path(),
        "/srv/library/library_aux.json"
    );
    assert_eq!(path_join("", "file"), "file");
}

#[test]
fn cache_find_needs_every_characteristic_to_match() {
    let mut cache = LibraryCacheLock::read_or_create_new(None, "cache.json".to_string());
    cache.insert(
        "a.mkv".to_string(),
        100,
        NsTimestamp::from_nanos(1),
        NsTimestamp::from_nanos(2),
        "h1".to_string(),
    );
    let hit = cache.find_cached_sha256_hash(
        "a.mkv",
        100,
        NsTimestamp::from_nanos(1),
        NsTimestamp::from_nanos(2),
    );
    assert_eq!(hit.as_deref(), Some("h1"));
    // any difference means the file is treated as new
    assert!(cache
        .find_cached_sha256_hash("a.mkv", 101, NsTimestamp::from_nanos(1), NsTimestamp::from_nanos(2))
        .is_none());
    assert!(cache
        .find_cached_sha256_hash("b.mkv", 100, NsTimestamp::from_nanos(1), NsTimestamp::from_nanos(2))
        .is_none());
    assert!(cache
        .find_cached_sha256_hash("a.mkv", 100, NsTimestamp::from_nanos(9), NsTimestamp::from_nanos(2))
        .is_none());
    assert!(cache
        .find_cached_sha256_hash("a.mkv", 100, NsTimestamp::from_nanos(1), NsTimestamp::from_nanos(9))
        .is_none());
    // inserting again for the same file replaces the record
    cache.insert(
        "a.mkv".to_string(),
        100,
        NsTimestamp::from_nanos(1),
        NsTimestamp::from_nanos(2),
        "h2".to_string(),
    );
    assert_eq!(cache.files().len(), 1);
    let hit = cache.find_cached_sha256_hash(
        "a.mkv",
        100,
        NsTimestamp::from_nanos(1),
        NsTimestamp::from_nanos(2),
    );
    assert_eq!(hit.as_deref(), Some("h2"));
}

#[test]
fn computed_hashes_are_the_real_sha256_text() {
    // well-known digests; a cache that handed anything else back would fail
    let mut cache = LibraryCacheLock::read_or_create_new(
        Some(LibraryCache { files: Vec::new() }),
        "cache.json".to_string(),
    );
    let empty: Vec<u8> = Vec::new();
    let h = cache.insert_computed_hash(
        "empty.bin".to_string(),
        0,
        NsTimestamp::from_nanos(0),
        NsTimestamp::from_nanos(0),
        &empty,
    );
    assert_eq!(
        h,
        "e3b0c44298fc1c149afbf4c8996fb92427ae41e4649b934ca495991b7852b855"
    );
    let abc = b"abc".to_vec();
    let h = cache.insert_computed_hash(
        "abc.bin".to_string(),
        3,
        NsTimestamp::from_nanos(0),
        NsTimestamp::from_nanos(0),
        &abc,
    );
    assert_eq!(
        h,
        "ba7816bf8f01cfea414140de5dae2223b00361a396177a9cb410ff61f20015ad"
    );
    // and the cached copy is what was computed
    let hit = cache.find_cached_sha256_hash(
        "abc.bin",
        3,
        NsTimestamp::from_nanos(0),
        NsTimestamp::from_nanos(0),
    );
    assert_eq!(
        hit.as_deref(),
        Some("ba7816bf8f01cfea414140de5dae2223b00361a396177a9cb410ff61f20015ad")
    );
}

#[test]
fn database_finds_entries_by_hash_and_records_new_files() {
    let mut db = LibraryDatabaseLock::new(Vec::new(), handle("library_database.json"));
    assert!(db.find_entry_by_sha256_hash("h1").is_none());
    let uuid = db.add("clips/one.mkv", "h1".to_string());
    let entry = db.find_entry_by_sha256_hash("h1").unwrap();
    assert_eq!(entry.uuid, uuid);
    assert_eq!(entry.sha256, "h1");
    assert_eq!(entry.library_urls.len(), 1);
    assert_eq!(
        entry.library_urls[0],
        "stpl://domain.example.com/clips/one.mkv"
    );
    let other = db.add("clips/two.mkv", "h2".to_string());
    assert_ne!(uuid, other);
    assert_eq!(db.entries().len(), 2);
}

#[test]
fn fresh_uuids_carry_the_version_four_marks() {
    let u = UuidString::new_v4();
    assert_eq!((u.0 >> 76) & 0xf, 4);
    assert_eq!((u.0 >> 62) & 0x3, 2);
    let v = UuidString::new_v4();
    assert_ne!(u, v);
}

#[test]
fn scans_take_in_exactly_the_video_containers() {
    assert!(LibraryIndex::should_file_be_scanned("video.mp4"));
    assert!(LibraryIndex::should_file_be_scanned("video.mkv"));
    assert!(!LibraryIndex::should_file_be_scanned("video.mp3"));
    assert!(!LibraryIndex::should_file_be_scanned("mp4"));
    assert!(!LibraryIndex::should_file_be_scanned(""));
    assert!(!LibraryIndex::should_file_be_scanned("video.mkv.txt"));
}

#[test]
fn index_records_each_path_once() {
    let mut index = LibraryIndex::new();
    index.record_file("a/one.mkv".to_string(), UuidString(1));
    index.record_file("a/two.mkv".to_string(), UuidString(2));
    index.record_file("a/one.mkv".to_string(), UuidString(3));
    assert_eq!(index.files.len(), 2);
    assert_eq!(index.files[0], ("a/one.mkv".to_string(), UuidString(3)));
    assert_eq!(index.files[1], ("a/two.mkv".to_string(), UuidString(2)));
}

#[test]
fn album_info_tells_albums_from_singles() {
    let singled = SongAlbumInfo::Single;
    assert!(singled.is_single());
    assert!(!singled.is_album());
    assert_eq!(singled.album_name(), None);
    let on_album = SongAlbumInfo::Album { name: "The Album".to_string() };
    assert!(on_album.is_album());
    assert!(!on_album.is_single());
    assert_eq!(on_album.album_name().as_deref(), Some("The Album"));
}

#[test]
fn games_know_their_names() {
    assert_eq!(YARG {}.pretty_name(), "Yet Another Rhythm Game");
    assert_eq!(
        GuitarHero3 {}.pretty_name(),
        "Guitar Hero III: Legends of Rock"
    );
}

#[test]
fn yarg_songs_answer_the_song_questions() {
    let song = scoretracker_core::yarg::Song {
        title: "Tune".to_string(),
        artist: "Band".to_string(),
        album: SongAlbumInfo::Album { name: "LP".to_string() },
        year: "2007".to_string(),
    };
    assert_eq!(song.title(), "Tune");
    assert_eq!(song.artist(), "Band");
    assert!(song.album().unwrap().is_album());
    assert_eq!(song.year(), Some(2007));
    let undated = scoretracker_core::yarg::Song {
        title: "t".to_string(),
        artist: "a".to_string(),
        album: SongAlbumInfo::Single,
        year: "unknown".to_string(),
    };
    assert_eq!(undated.year(), None);
}
