//! A guitar tuner and practice aid: notes and scales, the tuning state that
//! settles on the note being held, the fretboard with the notes that sound
//! and the notes to play, and the practice modes that tie them together.
//!
//! The library works on whole numbers throughout. Frequencies are counted in
//! millihertz and time in milliseconds; the spectrum and the naming of a
//! frequency are left to the caller.

/// The practice application and its modes.
pub mod app;
/// Errors of note building.
pub mod error;
/// The notes on a fretboard.
pub mod fretboard;
/// Windows of frets.
pub mod frets;
/// The picture of a fretboard.
pub mod layout;
/// Notes.
pub mod note;
/// The order of notes.
pub mod order;
/// Scales.
pub mod scale;
/// Songs.
pub mod songs;
/// The tuning state.
pub mod state;
/// The peak of a spectrum.
pub mod transform;
/// Random notes.
pub mod utils;

pub use fretboard::FretboardState;
pub use layout::Fretboard;
