//! Response types handed back to the front end by the command handlers.

use vstd::prelude::*;

verus! {

/// An ordered list of chord names.
pub struct ChordResponse {
    pub chords: Vec<String>,
}

/// An ordered list of genre names.
pub struct GenreResponse {
    pub genres: Vec<String>,
}

impl ChordResponse {
    /// The chord names this response carries, as character sequences.
    pub open spec fn names(self) -> Seq<Seq<char>> {
        self.chords@.map_values(|s: String| s@)
    }
}

impl GenreResponse {
    /// The genre names this response carries, as character sequences.
    pub open spec fn names(self) -> Seq<Seq<char>> {
        self.genres@.map_values(|s: String| s@)
    }
}

} // verus!
