//! The notes shown on a fretboard: the ones that sound, the ones to play,
//! and the window of frets in view.

use crate::note::Note;
use std::ops::RangeInclusive;
use vstd::prelude::*;

verus! {

/// The list `notes` with `note` added at its end, unless it is there already.
pub open spec fn with_note(notes: Seq<Note>, note: Note) -> Seq<Note> {
    if notes.contains(note) {
        notes
    } else {
        notes.push(note)
    }
}

/// The list `notes` with each of `added` put in by `with_note`, in turn.
pub open spec fn with_notes(notes: Seq<Note>, added: Seq<Note>) -> Seq<Note>
    decreases added.len(),
{
    if added.len() == 0 {
        notes
    } else {
        with_note(with_notes(notes, added.drop_last()), added.last())
    }
}

/// The list `notes` without any occurrence of `note`, the rest in order.
pub open spec fn without_note(notes: Seq<Note>, note: Note) -> Seq<Note> {
    notes.filter(|other: Note| other != note)
}

/// The list `notes` without any occurrence of any of `removed`.
pub open spec fn without_notes(notes: Seq<Note>, removed: Seq<Note>) -> Seq<Note>
    decreases removed.len(),
{
    if removed.len() == 0 {
        notes
    } else {
        without_note(without_notes(notes, removed.drop_last()), removed.last())
    }
}

/// State for the fretboard widget.
#[derive(Debug)]
pub struct FretboardState {
    /// The currently active notes on the fretboard.
    pub active_notes: Vec<Note>,
    /// The notes that are being used for tracking.
    pub ghost_notes: Vec<Note>,
    /// The range of frets to display on the fretboard.
    pub frets: RangeInclusive<u8>,
}

/// Whether `note` occurs in `notes`.
pub fn contains_note(notes: &Vec<Note>, note: Note) -> (found: bool)
    ensures
        found == notes@.contains(note),
{
    let mut i: usize = 0;
    while i < notes.len()
        invariant
            i <= notes.len(),
            forall|j: int| 0 <= j < i ==> notes@[j] != note,
        decreases notes.len() - i,
    {
        if notes[i] == note {
            return true;
        }
        i += 1;
    }
    false
}

/// Takes every occurrence of `note` out of `notes` and keeps the rest in order.
pub fn remove_note(notes: &mut Vec<Note>, note: Note)
    ensures
        final(notes)@ == without_note(old(notes)@, note),
{
    let mut kept: Vec<Note> = Vec::new();
    let mut i: usize = 0;
    proof {
        reveal(Seq::filter);
        assert(notes@.take(0) =~= Seq::<Note>::empty());
    }
    while i < notes.len()
        invariant
            i <= notes.len(),
            kept@ == without_note(notes@.take(i as int), note),
        decreases notes.len() - i,
    {
        proof {
            broadcast use Seq::lemma_filter_push;

            assert(notes@.take(i + 1) =~= notes@.take(i as int).push(notes@[i as int]));
        }
        if notes[i] != note {
            kept.push(notes[i]);
        }
        i += 1;
    }
    assert(notes@.take(i as int) =~= notes@);
    *notes = kept;
}

/// Copies a list of notes.
pub fn copy_notes(notes: &Vec<Note>) -> (copy: Vec<Note>)
    ensures
        copy@ == notes@,
{
    let mut copy: Vec<Note> = Vec::new();
    let mut i: usize = 0;
    while i < notes.len()
        invariant
            i <= notes.len(),
            copy@ == notes@.take(i as int),
        decreases notes.len() - i,
    {
        copy.push(notes[i]);
        i += 1;
        assert(copy@ =~= notes@.take(i as int));
    }
    assert(notes@.take(i as int) =~= notes@);
    copy
}

impl Clone for FretboardState {
    /// Copies the notes and the window.
    fn clone(&self) -> (copy: Self)
        ensures
            copy.active_notes@ == self.active_notes@,
            copy.ghost_notes@ == self.ghost_notes@,
            copy.frets@ == self.frets@,
    {
        Self {
            active_notes: copy_notes(&self.active_notes),
            ghost_notes: copy_notes(&self.ghost_notes),
            frets: self.frets.clone(),
        }
    }
}

impl Default for FretboardState {
    /// Creates a default `FretboardState` with no active notes and an empty ghost notes list.
    fn default() -> (state: Self)
        ensures
            state.active_notes@ == Seq::<Note>::empty(),
            state.ghost_notes@ == Seq::<Note>::empty(),
            state.frets@.start == 0,
            state.frets@.end == 12,
            !state.frets@.exhausted,
    {
        Self { active_notes: Vec::new(), ghost_notes: Vec::new(), frets: 0..=12 }
    }
}

impl FretboardState {
    /// Creates a new `FretboardState` with no active notes.
    pub fn new(frets: RangeInclusive<u8>) -> (state: Self)
        ensures
            state.active_notes@ == Seq::<Note>::empty(),
            state.ghost_notes@ == Seq::<Note>::empty(),
            state.frets == frets,
    {
        Self { active_notes: Vec::new(), ghost_notes: Vec::new(), frets }
    }

    /// Sets the active note on the fretboard.
    ///
    /// If the note is already a ghost note, it will be removed from the ghost notes.
    pub fn set_active_note(&mut self, note: Note)
        ensures
            final(self).active_notes@ == with_note(old(self).active_notes@, note),
            final(self).ghost_notes@ == without_note(old(self).ghost_notes@, note),
            final(self).frets == old(self).frets,
            final(self).active_notes@.contains(note),
            !final(self).ghost_notes@.contains(note),
    {
        if !contains_note(&self.active_notes, note) {
            self.active_notes.push(note);
        }
        remove_note(&mut self.ghost_notes, note);
        proof {
            lemma_with_note(old(self).active_notes@, note, note);
            lemma_without_note(old(self).ghost_notes@, note, note);
        }
    }

    /// Sets multiple active notes on the fretboard.
    pub fn set_active_notes(&mut self, notes: Vec<Note>)
        ensures
            final(self).active_notes@ == with_notes(old(self).active_notes@, notes@),
            final(self).ghost_notes@ == without_notes(old(self).ghost_notes@, notes@),
            final(self).frets == old(self).frets,
    {
        let mut i: usize = 0;
        assert(notes@.take(0) =~= Seq::<Note>::empty());
        while i < notes.len()
            invariant
                i <= notes.len(),
                self.active_notes@ == with_notes(old(self).active_notes@, notes@.take(i as int)),
                self.ghost_notes@ == without_notes(old(self).ghost_notes@, notes@.take(i as int)),
                self.frets == old(self).frets,
            decreases notes.len() - i,
        {
            assert(notes@.take(i + 1).drop_last() =~= notes@.take(i as int));
            self.set_active_note(notes[i]);
            i += 1;
        }
        assert(notes@.take(i as int) =~= notes@);
    }

    /// Sets a ghost note on the fretboard, which is a note
    /// that is not currently active but is being tracked.
    pub fn set_ghost_note(&mut self, note: Note)
        ensures
            final(self).ghost_notes@ == with_note(old(self).ghost_notes@, note),
            final(self).active_notes@ == old(self).active_notes@,
            final(self).frets == old(self).frets,
    {
        if !contains_note(&self.ghost_notes, note) {
            self.ghost_notes.push(note);
        }
    }

    /// Sets multiple ghost notes on the fretboard.
    pub fn set_ghost_notes(&mut self, notes: Vec<Note>)
        ensures
            final(self).ghost_notes@ == with_notes(old(self).ghost_notes@, notes@),
            final(self).active_notes@ == old(self).active_notes@,
            final(self).frets == old(self).frets,
    {
        let mut i: usize = 0;
        assert(notes@.take(0) =~= Seq::<Note>::empty());
        while i < notes.len()
            invariant
                i <= notes.len(),
                self.ghost_notes@ == with_notes(old(self).ghost_notes@, notes@.take(i as int)),
                self.active_notes@ == old(self).active_notes@,
                self.frets == old(self).frets,
            decreases notes.len() - i,
        {
            assert(notes@.take(i + 1).drop_last() =~= notes@.take(i as int));
            self.set_ghost_note(notes[i]);
            i += 1;
        }
        assert(notes@.take(i as int) =~= notes@);
    }

    /// Clears all active notes on the fretboard.
    pub fn clear_active_notes(&mut self)
        ensures
            final(self).active_notes@ == Seq::<Note>::empty(),
            final(self).ghost_notes@ == old(self).ghost_notes@,
            final(self).frets == old(self).frets,
    {
        self.active_notes.clear();
    }

    /// Clears all ghost notes on the fretboard.
    pub fn clear_ghost_notes(&mut self)
        ensures
            final(self).ghost_notes@ == Seq::<Note>::empty(),
            final(self).active_notes@ == old(self).active_notes@,
            final(self).frets == old(self).frets,
    {
        self.ghost_notes.clear();
    }

    /// Sets the range of frets to display on the fretboard.
    pub fn set_frets(&mut self, frets: RangeInclusive<u8>)
        ensures
            final(self).frets == frets,
            final(self).active_notes@ == old(self).active_notes@,
            final(self).ghost_notes@ == old(self).ghost_notes@,
    {
        self.frets = frets;
    }
}

/// Adding a note keeps what was there, adds that note and nothing else, and
/// makes no note occur twice.
pub proof fn lemma_with_note(notes: Seq<Note>, note: Note, other: Note)
    ensures
        with_note(notes, note).contains(other) <==> notes.contains(other) || other == note,
        notes.no_duplicates() ==> with_note(notes, note).no_duplicates(),
{
    broadcast use vstd::seq_lib::group_seq_properties;

    if !notes.contains(note) {
        assert(notes.push(note)[notes.len() as int] == note);
    }
}

/// Taking a note out leaves every other note and keeps the list free of
/// repeats.
pub proof fn lemma_without_note(notes: Seq<Note>, note: Note, other: Note)
    ensures
        without_note(notes, note).contains(other) <==> notes.contains(other) && other != note,
        notes.no_duplicates() ==> without_note(notes, note).no_duplicates(),
    decreases notes.len(),
{
    reveal(Seq::filter);
    if notes.len() > 0 {
        let front = notes.drop_last();
        lemma_without_note(front, note, other);
        lemma_without_note(front, note, notes.last());
        assert(notes =~= front.push(notes.last()));
        let kept = without_note(front, note);
        if notes.contains(other) {
            let i = choose|i: int| 0 <= i < notes.len() && notes[i] == other;
            if i < front.len() {
                assert(front[i] == other);
            }
        }
        if front.contains(other) {
            let i = choose|i: int| 0 <= i < front.len() && front[i] == other;
            assert(notes[i] == other);
        }
        if notes.last() != note {
            assert(without_note(notes, note) == kept.push(notes.last()));
            assert(kept.push(notes.last())[kept.len() as int] == notes.last());
            if kept.contains(other) {
                let i = choose|i: int| 0 <= i < kept.len() && kept[i] == other;
                assert(kept.push(notes.last())[i] == other);
            }
            if notes.no_duplicates() {
                assert(front.no_duplicates());
                assert(!front.contains(notes.last())) by {
                    if front.contains(notes.last()) {
                        let i = choose|i: int| 0 <= i < front.len() && front[i] == notes.last();
                        assert(notes[i] == notes[notes.len() - 1]);
                    }
                }
                assert(!kept.contains(notes.last()));
            }
        } else if notes.no_duplicates() {
            assert(front.no_duplicates());
        }
    }
}

/// A note that is set active while it is a ghost note leaves the ghost
/// notes and is among the active ones: it is never in both lists. Lists
/// without repeats stay without repeats.
pub proof fn lemma_active_note_leaves_ghosts(active: Seq<Note>, ghost: Seq<Note>, note: Note)
    ensures
        with_note(active, note).contains(note),
        !without_note(ghost, note).contains(note),
        active.no_duplicates() ==> with_note(active, note).no_duplicates(),
        ghost.no_duplicates() ==> without_note(ghost, note).no_duplicates(),
        ghost.no_duplicates() && ghost.contains(note) ==> without_note(ghost, note).len()
            == ghost.len() - 1,
{
    lemma_with_note(active, note, note);
    lemma_without_note(ghost, note, note);
    if ghost.no_duplicates() && ghost.contains(note) {
        lemma_without_note_len(ghost, note);
    }
}

/// Taking out a note that occurs once shortens the list by one.
proof fn lemma_without_note_len(notes: Seq<Note>, note: Note)
    requires
        notes.no_duplicates(),
    ensures
        without_note(notes, note).len() == if notes.contains(note) {
            notes.len() - 1
        } else {
            notes.len() as int
        },
    decreases notes.len(),
{
    reveal(Seq::filter);
    if notes.len() > 0 {
        let front = notes.drop_last();
        lemma_without_note_len(front, note);
        assert(notes =~= front.push(notes.last()));
        if notes.last() == note {
            assert(notes[notes.len() - 1] == note);
            assert(!front.contains(note)) by {
                if front.contains(note) {
                    let i = choose|i: int| 0 <= i < front.len() && front[i] == note;
                    assert(notes[i] == notes[notes.len() - 1]);
                }
            }
        } else {
            if notes.contains(note) {
                let i = choose|i: int| 0 <= i < notes.len() && notes[i] == note;
                assert(front[i] == note);
            }
            if front.contains(note) {
                let i = choose|i: int| 0 <= i < front.len() && front[i] == note;
                assert(notes[i] == note);
            }
        }
    }
}

} // verus!
