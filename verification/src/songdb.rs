//! The song database: songs from rhythm games with their metadata.
use crate::yarg;
use vstd::prelude::*;

verus! {

/// Whether a song was released on an album or on its own.
#[derive(Debug, Clone)]
pub enum SongAlbumInfo {
    /// Released on its own.
    Single,
    /// Released on the named album.
    Album { name: String },
}

/// The mathematical value of the album information: the album's name,
/// where there is one.
pub enum SongAlbumInfoView {
    Single,
    Album { name: Seq<char> },
}

impl View for SongAlbumInfo {
    type V = SongAlbumInfoView;

    open spec fn view(&self) -> SongAlbumInfoView {
        match self {
            SongAlbumInfo::Single => SongAlbumInfoView::Single,
            SongAlbumInfo::Album { name } => SongAlbumInfoView::Album { name: name@ },
        }
    }
}

impl SongAlbumInfo {
    /// The album's name; nothing for a single.
    pub fn album_name(self) -> (r: Option<String>)
        ensures
            match self@ {
                SongAlbumInfoView::Album { name } => r matches Some(n) && n@ == name,
                SongAlbumInfoView::Single => r is None,
            },
    {
        match self {
            SongAlbumInfo::Album { name } => Some(name),
            SongAlbumInfo::Single => None,
        }
    }

    /// Whether the song was released on an album.
    pub fn is_album(&self) -> (r: bool)
        ensures
            r == (self@ is Album),
    {
        matches!(self, SongAlbumInfo::Album { .. })
    }

    /// Whether the song was released on its own.
    pub fn is_single(&self) -> (r: bool)
        ensures
            r == (self@ is Single),
    {
        matches!(self, SongAlbumInfo::Single)
    }
}

/// What every game's song record can tell.
pub trait Song {
    /// The song's title.
    fn title(&self) -> String;

    /// The song's artist.
    fn artist(&self) -> String;

    /// The album the song was released on, where known.
    fn album(&self) -> Option<SongAlbumInfo>;

    /// The year the song was released, where known.
    fn year(&self) -> Option<i64>;
}

/// A song record of one of the known games: a closed union, matched
/// exhaustively, so a new game is a compile-time change.
#[derive(Debug, Clone)]
pub enum SongRecord {
    /// A song as the YARG game records it.
    Yarg(yarg::Song),
}

/// The song database file's data.
#[derive(Debug, Clone)]
pub struct SongDatabase {
    /// Version of the file format.
    pub format_version: i32,
    /// The recorded songs.
    pub songs: Vec<SongRecord>,
}

} // verus!
