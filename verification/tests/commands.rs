use chords::commands::fetch_chords;
use chords::commands::fetch_genres;
use chords::commands::get_chords;
use chords::commands::get_genres;

const CHORDS: [&str; 12] = ["C", "C#", "D", "D#", "E", "F", "F#", "G", "G#", "A", "A#", "B"];

const GENRES: [&str; 11] = [
    "Blues",
    "Indie Folk",
    "Country",
    "Electronic",
    "Folk",
    "Hip Hop",
    "Jazz",
    "Pop",
    "Rock",
    "Singer Songwriter",
    "Reggae",
];

#[test]
fn get_chords_returns_the_twelve_chromatic_chords_in_order() {
    let v = get_chords().unwrap();
    assert_eq!(v.len(), 12);
    for (got, want) in v.iter().zip(CHORDS.iter()) {
        assert_eq!(got, want);
    }
}

#[test]
fn get_genres_returns_the_eleven_genres_in_order() {
    let v = get_genres().unwrap();
    assert_eq!(v.len(), 11);
    for (got, want) in v.iter().zip(GENRES.iter()) {
        assert_eq!(got, want);
    }
}

#[test]
fn fetch_chords_builds_the_full_chord_response() {
    let resp = fetch_chords().unwrap();
    assert_eq!(resp.chords.len(), 12);
    for (got, want) in resp.chords.iter().zip(CHORDS.iter()) {
        assert_eq!(got, want);
    }
}

#[test]
fn fetch_genres_builds_the_full_genre_response() {
    let resp = fetch_genres().unwrap();
    assert_eq!(resp.genres.len(), 11);
    for (got, want) in resp.genres.iter().zip(GENRES.iter()) {
        assert_eq!(got, want);
    }
}

#[test]
fn repeated_calls_return_identical_output() {
    let c1 = get_chords().unwrap();
    let c2 = get_chords().unwrap();
    assert_eq!(c1, c2);
    let g1 = get_genres().unwrap();
    let g2 = get_genres().unwrap();
    assert_eq!(g1, g2);
}

#[test]
fn neither_handler_ever_returns_an_error() {
    assert!(get_chords().is_ok());
    assert!(get_genres().is_ok());
    assert!(fetch_chords().is_ok());
    assert!(fetch_genres().is_ok());
}
