//! The command handlers: each builds a fixed list of names and never fails.
//!
//! Both handlers return `Result` with a `String` error for parity with the
//! host's command-call convention, although no code path produces an error.

use vstd::prelude::*;

use crate::models::ChordResponse;
use crate::models::GenreResponse;

verus! {

/// The twelve chromatic chord names, in ascending pitch order from C.
pub open spec fn chord_names() -> Seq<Seq<char>> {
    seq![
        "C"@,
        "C#"@,
        "D"@,
        "D#"@,
        "E"@,
        "F"@,
        "F#"@,
        "G"@,
        "G#"@,
        "A"@,
        "A#"@,
        "B"@,
    ]
}

/// The eleven genre names offered to the front end, in their fixed order.
pub open spec fn genre_names() -> Seq<Seq<char>> {
    seq![
        "Blues"@,
        "Indie Folk"@,
        "Country"@,
        "Electronic"@,
        "Folk"@,
        "Hip Hop"@,
        "Jazz"@,
        "Pop"@,
        "Rock"@,
        "Singer Songwriter"@,
        "Reggae"@,
    ]
}

/// Builds the full list of chromatic chords. Never fails.
pub fn fetch_chords() -> (r: Result<ChordResponse, String>)
    ensures
        r matches Ok(resp) && resp.names() == chord_names(),
{
    let mut chords: Vec<String> = Vec::new();
    chords.push(String::from_str("C"));
    chords.push(String::from_str("C#"));
    chords.push(String::from_str("D"));
    chords.push(String::from_str("D#"));
    chords.push(String::from_str("E"));
    chords.push(String::from_str("F"));
    chords.push(String::from_str("F#"));
    chords.push(String::from_str("G"));
    chords.push(String::from_str("G#"));
    chords.push(String::from_str("A"));
    chords.push(String::from_str("A#"));
    chords.push(String::from_str("B"));
    let response = ChordResponse { chords };
    proof {
        assert(response.names() =~= chord_names());
    }
    Ok(response)
}

/// Builds the full list of genres. Never fails.
pub fn fetch_genres() -> (r: Result<GenreResponse, String>)
    ensures
        r matches Ok(resp) && resp.names() == genre_names(),
{
    let mut genres: Vec<String> = Vec::new();
    genres.push(String::from_str("Blues"));
    genres.push(String::from_str("Indie Folk"));
    genres.push(String::from_str("Country"));
    genres.push(String::from_str("Electronic"));
    genres.push(String::from_str("Folk"));
    genres.push(String::from_str("Hip Hop"));
    genres.push(String::from_str("Jazz"));
    genres.push(String::from_str("Pop"));
    genres.push(String::from_str("Rock"));
    genres.push(String::from_str("Singer Songwriter"));
    genres.push(String::from_str("Reggae"));
    let response = GenreResponse { genres };
    proof {
        assert(response.names() =~= genre_names());
    }
    Ok(response)
}

/// Command handler: hands the front end the fixed chord list. Never fails.
pub fn get_chords() -> (r: Result<Vec<String>, String>)
    ensures
        r matches Ok(v) && v@.map_values(|s: String| s@) == chord_names(),
{
    let response = fetch_chords()?;
    Ok(response.chords)
}

/// Command handler: hands the front end the fixed genre list. Never fails.
pub fn get_genres() -> (r: Result<Vec<String>, String>)
    ensures
        r matches Ok(v) && v@.map_values(|s: String| s@) == genre_names(),
{
    let response = fetch_genres()?;
    Ok(response.genres)
}

/// Law: the chord handler is idempotent. Every call returns the one fixed
/// chord list, so the results of any two calls carry identical names, and no
/// call depends on any earlier one.
pub proof fn lemma_get_chords_idempotent(r1: Result<Vec<String>, String>, r2: Result<Vec<String>, String>)
    requires
        r1 matches Ok(v) && v@.map_values(|s: String| s@) == chord_names(),
        r2 matches Ok(v) && v@.map_values(|s: String| s@) == chord_names(),
    ensures
        r1 is Ok,
        r2 is Ok,
        r1->Ok_0@.map_values(|s: String| s@) == r2->Ok_0@.map_values(|s: String| s@),
{
}

/// Law: the genre handler is idempotent. Every call returns the one fixed
/// genre list, so the results of any two calls carry identical names, and no
/// call depends on any earlier one.
pub proof fn lemma_get_genres_idempotent(r1: Result<Vec<String>, String>, r2: Result<Vec<String>, String>)
    requires
        r1 matches Ok(v) && v@.map_values(|s: String| s@) == genre_names(),
        r2 matches Ok(v) && v@.map_values(|s: String| s@) == genre_names(),
    ensures
        r1 is Ok,
        r2 is Ok,
        r1->Ok_0@.map_values(|s: String| s@) == r2->Ok_0@.map_values(|s: String| s@),
{
}

} // verus!
