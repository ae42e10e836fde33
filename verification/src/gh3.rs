//! Data of Guitar Hero III: Legends of Rock.
use vstd::prelude::*;

verus! {

/// The Guitar Hero III game itself.
#[derive(Debug, Clone)]
pub struct GuitarHero3 {}

impl GuitarHero3 {
    /// The game's human-readable name.
    pub fn pretty_name(&self) -> (r: &'static str)
        ensures
            r@ == "Guitar Hero III: Legends of Rock"@,
    {
        "Guitar Hero III: Legends of Rock"
    }
}

} // verus!
