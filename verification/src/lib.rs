//! Backend core for a chord-and-genre picker: two command handlers that
//! return fixed, ordered lists of chord names and genre names to a front end.

pub mod commands;
pub mod models;
