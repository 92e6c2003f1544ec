//! The tuning state: the latest block of samples and a short history of
//! detected fundamentals, from which the note that is being held is read.
//!
//! Frequencies are whole numbers of millihertz.

use crate::note::Note;
use std::collections::VecDeque;
use vstd::prelude::*;
use vstd::slice::slice_to_vec;

verus! {

/// The number of readings kept where no other number is asked for.
pub const DEFAULT_MAX_HISTORY: usize = 2;

/// The lowest fundamental that is taken for a note, 80 Hz, in millihertz.
pub const MIN_FREQ_MILLIHERTZ: u64 = 80_000;

/// The highest fundamental that is taken for a note, 1320 Hz, in millihertz.
pub const MAX_FREQ_MILLIHERTZ: u64 = 1_320_000;

/// One detected fundamental together with the note nearest to it.
#[derive(Debug, Clone, Copy, PartialEq, Eq, Structural)]
pub struct NoteHistory {
    /// The note nearest to the fundamental.
    pub note: Note,
    /// The fundamental in millihertz.
    pub fundamental_frequency: u64,
}

/// Whether a fundamental lies in the range that is taken for a note.
pub open spec fn accepted(fundamental_frequency: u64) -> bool {
    MIN_FREQ_MILLIHERTZ <= fundamental_frequency <= MAX_FREQ_MILLIHERTZ
}

/// The history after one more reading has come in: the reading stands at
/// the end, and the oldest one has left if the history had grown beyond
/// `max_history`.
pub open spec fn recorded(
    history: Seq<NoteHistory>,
    reading: NoteHistory,
    max_history: usize,
) -> Seq<NoteHistory> {
    let grown = history.push(reading);
    if grown.len() > max_history {
        grown.drop_first()
    } else {
        grown
    }
}

/// The history after each of `readings` has come in, in turn.
pub open spec fn recorded_all(
    history: Seq<NoteHistory>,
    readings: Seq<NoteHistory>,
    max_history: usize,
) -> Seq<NoteHistory>
    decreases readings.len(),
{
    if readings.len() == 0 {
        history
    } else {
        recorded(
            recorded_all(history, readings.drop_last(), max_history),
            readings.last(),
            max_history,
        )
    }
}

/// Whether all readings of the history name the same pitch class, whatever
/// their octaves.
pub open spec fn agreed(history: Seq<NoteHistory>) -> bool {
    forall|i: int|
        0 <= i < history.len() ==> (#[trigger] history[i]).note.spec_pitch_class()
            == history[0].note.spec_pitch_class()
}

/// The fundamental that the history stands for: that of the newest reading,
/// as long as there is a reading and all readings agree on the pitch class.
pub open spec fn settled_frequency(history: Seq<NoteHistory>) -> Option<u64> {
    if history.len() > 0 && agreed(history) {
        Some(history.last().fundamental_frequency)
    } else {
        None
    }
}

/// The note that the history stands for, with its fundamental: those of
/// the newest reading, as long as there is a reading and all readings agree
/// on the pitch class.
pub open spec fn settled_note(history: Seq<NoteHistory>) -> Option<(Note, u64)> {
    if history.len() > 0 && agreed(history) {
        Some((history.last().note, history.last().fundamental_frequency))
    } else {
        None
    }
}

/// The tuning state.
pub struct State {
    /// The audio samples to display.
    pub samples: Vec<i16>,
    /// The sample rate in millihertz.
    pub sample_rate: u64,
    /// The number of frets to display on the fretboard.
    pub fret_count: u8,
    /// The y offset for the note name display.
    /// It takes the center of the frame as reference point.
    pub bottom_padding: u16,
    /// A history of recent notes, oldest first.
    pub note_history: VecDeque<NoteHistory>,
    /// The maximum number of notes to keep in history.
    pub max_history: usize,
}

impl State {
    /// The readings in the history, oldest first.
    pub open spec fn history(&self) -> Seq<NoteHistory> {
        self.note_history@
    }

    /// Whether the history is within its bound.
    pub open spec fn wf(&self) -> bool {
        self.history().len() <= self.max_history
    }

    /// Creates a state without samples and with an empty history that keeps
    /// `max_history` readings, or `DEFAULT_MAX_HISTORY` where none is given.
    pub fn new(
        buffer_size: usize,
        fret_count: u8,
        bottom_padding: u16,
        max_history: Option<usize>,
    ) -> (state: Self)
        ensures
            state.samples@ == Seq::<i16>::empty(),
            state.sample_rate == 0,
            state.fret_count == fret_count,
            state.bottom_padding == bottom_padding,
            state.history() == Seq::<NoteHistory>::empty(),
            state.max_history == match max_history {
                Some(max) => max,
                None => DEFAULT_MAX_HISTORY,
            },
            state.wf(),
    {
        let max_history = match max_history {
            Some(max) => max,
            None => DEFAULT_MAX_HISTORY,
        };
        Self {
            samples: Vec::with_capacity(buffer_size),
            sample_rate: 0,
            fret_count,
            bottom_padding,
            note_history: VecDeque::with_capacity(max_history),
            max_history,
        }
    }

    /// Takes in a block of samples with what was detected in it: the sample
    /// rate, the fundamental, and the note nearest to the fundamental where
    /// there is one.
    ///
    /// The samples and the rate are kept for display. The reading enters the
    /// history only if the fundamental lies in the accepted range and has a
    /// note; the oldest reading then leaves if the history has grown beyond
    /// `max_history`.
    pub fn process_samples(
        &mut self,
        samples: &[i16],
        sample_rate: u64,
        fundamental_frequency: u64,
        note: Option<Note>,
    )
        ensures
            final(self).samples@ == samples@,
            final(self).sample_rate == sample_rate,
            final(self).fret_count == old(self).fret_count,
            final(self).bottom_padding == old(self).bottom_padding,
            final(self).max_history == old(self).max_history,
            final(self).history() == match note {
                Some(note) if accepted(fundamental_frequency) => recorded(
                    old(self).history(),
                    NoteHistory { note, fundamental_frequency },
                    old(self).max_history,
                ),
                _ => old(self).history(),
            },
            old(self).wf() ==> final(self).wf(),
    {
        self.samples = slice_to_vec(samples);
        self.sample_rate = sample_rate;
        if fundamental_frequency < MIN_FREQ_MILLIHERTZ || fundamental_frequency
            > MAX_FREQ_MILLIHERTZ {
            return ;
        }
        if let Some(note) = note {
            self.note_history.push_back(NoteHistory { note, fundamental_frequency });
            if self.note_history.len() > self.max_history {
                self.note_history.pop_front();
            }
            assert(self.note_history@ =~= recorded(
                old(self).history(),
                NoteHistory { note, fundamental_frequency },
                old(self).max_history,
            ));
        }
    }

    /// Returns the fundamental of the newest reading if all readings in the
    /// history name the same pitch class.
    pub fn get_most_frequent_note(&self) -> (frequency: Option<u64>)
        ensures
            frequency == settled_frequency(self.history()),
    {
        match self.newest_if_agreed() {
            Some(reading) => Some(reading.fundamental_frequency),
            None => None,
        }
    }

    /// Returns the note that is being held, with the fundamental that was
    /// measured for it last: the newest reading, if all readings in the
    /// history name the same pitch class.
    pub fn get_current_note(&self) -> (current: Option<(Note, u64)>)
        ensures
            current == settled_note(self.history()),
    {
        match self.newest_if_agreed() {
            Some(reading) => Some((reading.note, reading.fundamental_frequency)),
            None => None,
        }
    }

    fn newest_if_agreed(&self) -> (newest: Option<NoteHistory>)
        ensures
            newest == if self.history().len() > 0 && agreed(self.history()) {
                Some(self.history().last())
            } else {
                None
            },
    {
        let len = self.note_history.len();
        if len == 0 {
            return None;
        }
        let first: u8 = self.note_history[0].note.pitch_class();
        let mut i: usize = 1;
        while i < len
            invariant
                1 <= i <= len,
                len == self.note_history@.len(),
                first == self.note_history@[0].note.spec_pitch_class(),
                forall|j: int|
                    0 <= j < i ==> (#[trigger] self.note_history@[j]).note.spec_pitch_class()
                        == first,
            decreases len - i,
        {
            if self.note_history[i].note.pitch_class() != first {
                return None;
            }
            i += 1;
        }
        Some(self.note_history[len - 1])
    }
}

/// A history that starts within its bound holds, after any readings, the
/// newest ones of all that it was given, as many as the bound allows, in
/// the order in which they came.
pub proof fn lemma_history_keeps_newest(
    history: Seq<NoteHistory>,
    readings: Seq<NoteHistory>,
    max_history: usize,
)
    requires
        history.len() <= max_history,
    ensures
        ({
            let all = history + readings;
            let kept = recorded_all(history, readings, max_history);
            &&& kept.len() == if all.len() <= max_history {
                all.len()
            } else {
                max_history as nat
            }
            &&& kept == all.skip(all.len() - kept.len())
        }),
    decreases readings.len(),
{
    let all = history + readings;
    if readings.len() == 0 {
        assert(all =~= history);
        assert(all.skip(0) =~= history);
    } else {
        let front = readings.drop_last();
        lemma_history_keeps_newest(history, front, max_history);
        let before = recorded_all(history, front, max_history);
        let kept = recorded(before, readings.last(), max_history);
        assert(all =~= (history + front).push(readings.last()));
        assert(kept =~= all.skip(all.len() - kept.len()));
    }
}

/// One reading more than the bound, given to an empty history, leaves the
/// bound's number of readings: all but the first, in the order in which
/// they came.
pub proof fn lemma_history_evicts_oldest(readings: Seq<NoteHistory>, max_history: usize)
    requires
        readings.len() == max_history + 1,
    ensures
        recorded_all(Seq::empty(), readings, max_history) == readings.drop_first(),
{
    lemma_history_keeps_newest(Seq::empty(), readings, max_history);
    assert(Seq::<NoteHistory>::empty() + readings =~= readings);
    assert(readings.skip(1) =~= readings.drop_first());
}

/// With two readings of different pitch classes in the history no note is
/// being held; with readings that all name one pitch class the newest of
/// them is.
pub proof fn lemma_settled_note(history: Seq<NoteHistory>)
    ensures
        (exists|i: int, j: int|
            0 <= i < history.len() && 0 <= j < history.len()
                && (#[trigger] history[i]).note.spec_pitch_class()
                != (#[trigger] history[j]).note.spec_pitch_class()) ==> settled_note(history)
            is None,
        history.len() > 0 && (forall|i: int, j: int|
            0 <= i < history.len() && 0 <= j < history.len() ==> (
            #[trigger] history[i]).note.spec_pitch_class()
                == (#[trigger] history[j]).note.spec_pitch_class()) ==> settled_note(history)
            == Some((history.last().note, history.last().fundamental_frequency)),
        history.len() == 0 ==> settled_note(history) is None,
{
}

} // verus!
