//! Random notes to practise.

use crate::note::{spec_standard_tuning, standard_tuning, Note};
use std::ops::RangeInclusive;
use vstd::prelude::*;

verus! {

/// `fastrand::u8` on an inclusive range: a number of the thread's random
/// generator that lies within the bounds. The generator stops the program
/// on an empty range, so the bounds must be in order.
#[verifier::external_body]
fn random_fret(first: u8, last: u8) -> (fret: u8)
    requires
        first <= last,
    ensures
        first <= fret <= last,
{
    fastrand::u8(first..=last)
}

/// `fastrand::usize` on a range that ends before `len`: a number of the
/// thread's random generator below `len`. The generator stops the program
/// on an empty range, so `len` must not be 0.
#[verifier::external_body]
fn random_below(len: usize) -> (index: usize)
    requires
        len > 0,
    ensures
        index < len,
{
    fastrand::usize(..len)
}

/// Whether `note` sounds on some string of the standard tuning at some fret
/// from `first` to `last`.
pub open spec fn on_fretboard(note: Note, first: u8, last: u8) -> bool {
    exists|string: int, fret: int|
        0 <= string < 6 && first <= fret <= last && note
            == #[trigger] spec_standard_tuning()[string].plus(fret)
}

/// The note of a string of the standard tuning at a fret.
pub fn note_on_string(string: usize, fret: u8) -> (note: Note)
    requires
        string < 6,
        fret <= 203,
    ensures
        note == spec_standard_tuning()[string as int].plus(fret as int),
{
    let tuning = standard_tuning();
    tuning[string] + fret
}

/// Generates a random note within the specified range of frets.
///
/// # Notes
///
/// This functions only supports the standard tuning of a
/// 6-string guitar as of now.
pub fn generate_random_note(frets: &RangeInclusive<u8>) -> (note: Note)
    requires
        !frets@.exhausted,
        frets@.start <= frets@.end,
        frets@.end <= 203,
    ensures
        on_fretboard(note, frets@.start, frets@.end),
{
    let fret = random_fret(*frets.start(), *frets.end());
    let string = random_below(6);
    note_on_string(string, fret)
}

} // verus!
