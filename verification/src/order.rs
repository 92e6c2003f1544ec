//! The order of notes: by semitone index, so by octave first and by pitch
//! class within an octave.

use crate::note::Note;
use std::cmp::Ordering;
use vstd::prelude::*;

verus! {

impl PartialOrd for Note {
    /// Compares two notes by their semitone indices.
    fn partial_cmp(&self, other: &Self) -> (order: Option<Ordering>) {
        let octave: u8 = self.octave();
        let other_octave: u8 = other.octave();
        let class: u8 = self.pitch_class();
        let other_class: u8 = other.pitch_class();
        if octave < other_octave || (octave == other_octave && class < other_class) {
            Some(Ordering::Less)
        } else if octave == other_octave && class == other_class {
            Some(Ordering::Equal)
        } else {
            Some(Ordering::Greater)
        }
    }
}

impl vstd::std_specs::cmp::PartialOrdSpecImpl for Note {
    open spec fn obeys_partial_cmp_spec() -> bool {
        true
    }

    open spec fn partial_cmp_spec(&self, other: &Self) -> Option<Ordering> {
        if self.index() < other.index() {
            Some(Ordering::Less)
        } else if self.index() == other.index() {
            Some(Ordering::Equal)
        } else {
            Some(Ordering::Greater)
        }
    }
}

/// The order of notes is total: of two notes one lies below the other, or
/// they are the same note.
pub proof fn lemma_order_total(a: Note, b: Note)
    ensures
        a.index() < b.index() || b.index() < a.index() || a == b,
{
}

/// The order of notes carries over: a note below a second one that lies
/// below a third lies below the third.
pub proof fn lemma_order_transitive(a: Note, b: Note, c: Note)
    requires
        a.index() < b.index(),
        b.index() < c.index(),
    ensures
        a.index() < c.index(),
{
}

/// Raising a note keeps it in its place: of two notes the lower one stays
/// the lower one when both are raised by the same number of semitones.
pub proof fn lemma_order_plus(a: Note, b: Note, semitones: u8)
    requires
        a.index() < b.index(),
        b.index() + semitones <= 255,
    ensures
        a.plus(semitones as int).index() < b.plus(semitones as int).index(),
{
}

} // verus!
