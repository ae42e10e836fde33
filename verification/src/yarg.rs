//! Data of YARG (Yet Another Rhythm Game): the playable parts, the
//! difficulty levels, the modes and modifiers, and its song records.
use crate::codec::{parse_i128, string_to_chars};
use crate::songdb::{self, SongAlbumInfo};
use vstd::prelude::*;

verus! {

/// A playable part in the chart.
#[derive(Debug, Clone, Copy, PartialEq, Eq, Structural)]
pub enum Instrument {
    LeadGuitar,
    MelodyGuitar,
    RhythmGuitar,
    BassGuitar,
    Drums4L,
    Drums5L,
    ProDrums,
    EliteDrums,
    Keys5L,
    ProKeys,
    Vocals,
    Harmony1,
    Harmony2,
    Harmony3,
}

/// Difficulty a performance was played on.
#[derive(Debug, Clone, Copy, PartialEq, Eq, Structural)]
pub enum Difficulty {
    Beginner,
    Easy,
    Medium,
    Hard,
    Expert,
    ExpertPlus,
}

/// Game mode.
#[derive(Debug, Clone, Copy, PartialEq, Eq, Structural)]
pub enum Mode {
    Quickplay,
}

/// A chart mutator.
#[derive(Debug, Clone, Copy, PartialEq, Eq, Structural)]
pub enum Modifier {
    AllStrums,
    AllHopos,
    AllTaps,
    HoposToTaps,
    TapsToHopos,
    NoRangeShifts,
    NoKicks,
    NoDynamics,
}

/// A song as YARG records it.
#[derive(Debug, Clone)]
pub struct Song {
    pub title: String,
    pub artist: String,
    pub album: SongAlbumInfo,
    pub year: String,
}

impl songdb::Song for Song {
    fn title(&self) -> String {
        self.title.clone()
    }

    fn artist(&self) -> String {
        self.artist.clone()
    }

    fn album(&self) -> Option<SongAlbumInfo> {
        Some(self.album.clone())
    }

    fn year(&self) -> Option<i64> {
        let chars = string_to_chars(self.year.as_str());
        match parse_i128(&chars, 0) {
            Some((v, j)) => {
                if j == chars.len() && -0x8000000000000000i128 <= v && v
                    <= 0x7fffffffffffffffi128 {
                    Some(v as i64)
                } else {
                    None
                }
            },
            None => None,
        }
    }
}

/// The YARG game itself.
#[derive(Debug, Clone)]
pub struct YARG {}

impl YARG {
    /// The game's human-readable name.
    pub fn pretty_name(&self) -> (r: &'static str)
        ensures
            r@ == "Yet Another Rhythm Game"@,
    {
        "Yet Another Rhythm Game"
    }
}

} // verus!
