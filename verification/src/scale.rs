//! Common guitar scales.

use crate::frets::{fret_numbers, has_no_fret};
use crate::note::{spec_standard_tuning, standard_tuning, Note};
use std::ops::RangeInclusive;
use vstd::prelude::*;

verus! {

/// Represents common guitar scales and their semitone intervals.
#[derive(Debug, Clone, Copy, PartialEq, Eq, Structural)]
pub enum Scale {
    MajorPentatonic,
    MinorPentatonic,
    Major,
    NaturalMinor,
    Blues,
    Mixolydian,
    Dorian,
    Lydian,
}

impl Scale {
    /// The semitone steps of the scale above its root, in rising order.
    pub open spec fn spec_intervals(self) -> Seq<u8> {
        match self {
            Scale::MajorPentatonic => seq![0u8, 2, 4, 7, 9],
            Scale::MinorPentatonic => seq![0u8, 3, 5, 7, 10],
            Scale::Major => seq![0u8, 2, 4, 5, 7, 9, 11],
            Scale::NaturalMinor => seq![0u8, 2, 3, 5, 7, 8, 10],
            Scale::Blues => seq![0u8, 3, 5, 6, 7, 10],
            Scale::Mixolydian => seq![0u8, 2, 4, 5, 7, 9, 10],
            Scale::Dorian => seq![0u8, 2, 3, 5, 7, 9, 10],
            Scale::Lydian => seq![0u8, 2, 4, 6, 7, 9, 11],
        }
    }

    /// The scale that follows this one when cycling through the catalog.
    pub open spec fn spec_next(self) -> Scale {
        match self {
            Scale::MajorPentatonic => Scale::MinorPentatonic,
            Scale::MinorPentatonic => Scale::Blues,
            Scale::Major => Scale::NaturalMinor,
            Scale::NaturalMinor => Scale::MajorPentatonic,
            Scale::Blues => Scale::Mixolydian,
            Scale::Mixolydian => Scale::Dorian,
            Scale::Dorian => Scale::Lydian,
            Scale::Lydian => Scale::Major,
        }
    }

    /// The pitch classes of the scale on the given root, one for each
    /// interval, in the order of the intervals.
    pub open spec fn spec_pitch_classes(self, root: Note) -> Seq<u8> {
        self.spec_intervals().map_values(
            |step: u8| ((root.spec_pitch_class() + step) % 12) as u8,
        )
    }

    /// Whether the pitch class of `note` belongs to the scale on `root`.
    pub open spec fn has(self, root: Note, note: Note) -> bool {
        self.spec_pitch_classes(root).contains(note.spec_pitch_class() as u8)
    }

    /// The notes of the scale that starts on `root`: the root raised by each
    /// interval in turn.
    pub open spec fn spec_notes(self, root: Note) -> Seq<Note> {
        self.spec_intervals().map_values(|step: u8| root.plus(step as int))
    }

    /// The notes of the scale on `root` that one string offers, by rising
    /// fret: the open note raised by each fret whose note is in the scale.
    pub open spec fn string_notes(self, root: Note, open: Note, frets: Seq<u8>) -> Seq<Note> {
        frets.map_values(|fret: u8| open.plus(fret as int)).filter(
            |note: Note| self.has(root, note),
        )
    }

    /// The notes of the scale on `root` found on a guitar in standard tuning
    /// within the fret window: string by string from the lowest, and on each
    /// string by rising fret.
    pub open spec fn spec_fretboard_notes(self, root: Note, frets: RangeInclusive<u8>) -> Seq<
        Note,
    > {
        self.tuning_notes(root, spec_standard_tuning(), fret_numbers(frets))
    }

    /// The notes of the scale on `root` found on the strings of `tuning`
    /// at the given frets: string by string, and on each string fret by fret.
    pub open spec fn tuning_notes(self, root: Note, tuning: Seq<Note>, frets: Seq<u8>) -> Seq<
        Note,
    > {
        tuning.flat_map(|open: Note| self.string_notes(root, open, frets))
    }

    /// The name of the scale in words.
    pub open spec fn spec_name(self) -> Seq<char> {
        match self {
            Scale::MajorPentatonic => "Major Pentatonic"@,
            Scale::MinorPentatonic => "Minor Pentatonic"@,
            Scale::Major => "Major"@,
            Scale::NaturalMinor => "Natural Minor"@,
            Scale::Blues => "Blues"@,
            Scale::Mixolydian => "Mixolydian"@,
            Scale::Dorian => "Dorian"@,
            Scale::Lydian => "Lydian"@,
        }
    }

    /// Returns the name of the scale in words.
    pub fn to_string(&self) -> (name: String)
        ensures
            name@ == self.spec_name(),
    {
        String::from_str(
            match self {
                Scale::MajorPentatonic => "Major Pentatonic",
                Scale::MinorPentatonic => "Minor Pentatonic",
                Scale::Major => "Major",
                Scale::NaturalMinor => "Natural Minor",
                Scale::Blues => "Blues",
                Scale::Mixolydian => "Mixolydian",
                Scale::Dorian => "Dorian",
                Scale::Lydian => "Lydian",
            },
        )
    }

    /// Returns the semitone steps for the scale, relative to the root note.
    pub fn intervals(&self) -> (steps: &'static [u8])
        ensures
            steps@ == self.spec_intervals(),
    {
        let steps: &'static [u8] = match self {
            Scale::MajorPentatonic => &[0, 2, 4, 7, 9],
            Scale::MinorPentatonic => &[0, 3, 5, 7, 10],
            Scale::Major => &[0, 2, 4, 5, 7, 9, 11],
            Scale::NaturalMinor => &[0, 2, 3, 5, 7, 8, 10],
            Scale::Blues => &[0, 3, 5, 6, 7, 10],
            Scale::Mixolydian => &[0, 2, 4, 5, 7, 9, 10],
            Scale::Dorian => &[0, 2, 3, 5, 7, 9, 10],
            Scale::Lydian => &[0, 2, 4, 6, 7, 9, 11],
        };
        assert(steps@ =~= self.spec_intervals());
        steps
    }

    /// Returns the next scale in a predefined sequence.
    pub fn next(&self) -> (following: Scale)
        ensures
            following == self.spec_next(),
    {
        match self {
            Scale::MajorPentatonic => Scale::MinorPentatonic,
            Scale::MinorPentatonic => Scale::Blues,
            Scale::Major => Scale::NaturalMinor,
            Scale::NaturalMinor => Scale::MajorPentatonic,
            Scale::Blues => Scale::Mixolydian,
            Scale::Mixolydian => Scale::Dorian,
            Scale::Dorian => Scale::Lydian,
            Scale::Lydian => Scale::Major,
        }
    }
}

/// Whether every fret of the window gives a representable note on each
/// string of the standard tuning, whose highest open string is `E4`.
pub open spec fn playable(frets: RangeInclusive<u8>) -> bool {
    has_no_fret(frets) || frets@.end <= 203
}

fn contains_pitch_class(classes: &Vec<u8>, pc: u8) -> (found: bool)
    ensures
        found == classes@.contains(pc),
{
    let mut i: usize = 0;
    while i < classes.len()
        invariant
            i <= classes.len(),
            forall|j: int| 0 <= j < i ==> classes@[j] != pc,
        decreases classes.len() - i,
    {
        if classes[i] == pc {
            return true;
        }
        i += 1;
    }
    false
}

impl Scale {
    /// Returns the pitch classes (0-11) of the scale, ignoring octave.
    pub fn pitch_classes(&self, root: Note) -> (classes: Vec<u8>)
        ensures
            classes@ == self.spec_pitch_classes(root),
    {
        let root_pc: u8 = root.pitch_class();
        let steps = self.intervals();
        let mut classes: Vec<u8> = Vec::new();
        let mut i: usize = 0;
        while i < steps.len()
            invariant
                i <= steps.len(),
                steps@ == self.spec_intervals(),
                root_pc == root.spec_pitch_class(),
                classes@ == self.spec_pitch_classes(root).take(i as int),
            decreases steps.len() - i,
        {
            classes.push((root_pc + steps[i]) % 12);
            i += 1;
            assert(classes@ =~= self.spec_pitch_classes(root).take(i as int));
        }
        assert(classes@ =~= self.spec_pitch_classes(root));
        classes
    }

    /// Generates the notes of the scale starting from the given root note.
    pub fn notes(&self, root: Note) -> (notes: Vec<Note>)
        requires
            root.index() + self.spec_intervals().last() <= 255,
        ensures
            notes@ == self.spec_notes(root),
    {
        let steps = self.intervals();
        let mut notes: Vec<Note> = Vec::new();
        let mut i: usize = 0;
        while i < steps.len()
            invariant
                i <= steps.len(),
                steps@ == self.spec_intervals(),
                root.index() + self.spec_intervals().last() <= 255,
                notes@ == self.spec_notes(root).take(i as int),
            decreases steps.len() - i,
        {
            notes.push(root + steps[i]);
            i += 1;
            assert(notes@ =~= self.spec_notes(root).take(i as int));
        }
        assert(notes@ =~= self.spec_notes(root));
        notes
    }
}

impl Scale {
    /// One more fret on a string adds its note where the scale has it.
    proof fn lemma_string_notes_push(self, root: Note, open: Note, frets: Seq<u8>, fret: u8)
        ensures
            self.string_notes(root, open, frets.push(fret)) == if self.has(
                root,
                open.plus(fret as int),
            ) {
                self.string_notes(root, open, frets).push(open.plus(fret as int))
            } else {
                self.string_notes(root, open, frets)
            },
    {
        broadcast use Seq::lemma_push_map_commute, Seq::lemma_filter_push;

    }

    /// Without frets a string offers no notes.
    proof fn lemma_string_notes_empty(self, root: Note, open: Note)
        ensures
            self.string_notes(root, open, Seq::empty()) == Seq::<Note>::empty(),
    {
        reveal(Seq::filter);
        assert(Seq::<u8>::empty().map_values(|fret: u8| open.plus(fret as int)) =~= Seq::<
            Note,
        >::empty());
    }

    /// One more string adds its notes after those of the strings before it.
    proof fn lemma_tuning_notes_push(
        self,
        root: Note,
        tuning: Seq<Note>,
        open: Note,
        frets: Seq<u8>,
    )
        ensures
            self.tuning_notes(root, tuning.push(open), frets) == self.tuning_notes(
                root,
                tuning,
                frets,
            ) + self.string_notes(root, open, frets),
    {
        tuning.lemma_flat_map_push(|open: Note| self.string_notes(root, open, frets), open);
    }

    /// Returns all notes of this scale found on the given tuning and fret range.
    pub fn fretboard_notes(&self, root: Note, frets: &RangeInclusive<u8>) -> (notes: Vec<Note>)
        requires
            playable(*frets),
        ensures
            notes@ == self.spec_fretboard_notes(root, *frets),
    {
        let classes = self.pitch_classes(root);
        let tuning = standard_tuning();
        let mut notes: Vec<Note> = Vec::new();
        let empty = frets.is_empty();
        let first: u8 = *frets.start();
        let last: u8 = *frets.end();
        let ghost numbers = fret_numbers(*frets);
        let mut string: usize = 0;
        proof {
            assert(self.tuning_notes(root, spec_standard_tuning().take(0), numbers)
                =~= Seq::<Note>::empty()) by {
                assert(spec_standard_tuning().take(0) =~= Seq::<Note>::empty());
                reveal_with_fuel(Seq::flatten, 1);
                assert(Seq::<Note>::empty().map_values(
                    |open: Note| self.string_notes(root, open, numbers),
                ) =~= Seq::<Seq<Note>>::empty());
            }
        }
        while string < 6
            invariant
                string <= 6,
                tuning@ == spec_standard_tuning(),
                classes@ == self.spec_pitch_classes(root),
                numbers == fret_numbers(*frets),
                empty == has_no_fret(*frets),
                !empty ==> first == frets@.start && last == frets@.end,
                playable(*frets),
                notes@ == self.tuning_notes(
                    root,
                    spec_standard_tuning().take(string as int),
                    numbers,
                ),
            decreases 6 - string,
        {
            let open = tuning[string];
            let ghost before = notes@;
            proof {
                self.lemma_string_notes_empty(root, open);
                assert(numbers.take(0) =~= Seq::<u8>::empty());
            }
            if !empty {
                let mut fret: u8 = first;
                let mut done = false;
                while !done
                    invariant
                        !has_no_fret(*frets),
                        numbers == fret_numbers(*frets),
                        first == frets@.start,
                        last == frets@.end,
                        last <= 203,
                        first <= fret <= last,
                        done ==> fret == last,
                        open.index() <= 52,
                        classes@ == self.spec_pitch_classes(root),
                        notes@ == before + self.string_notes(
                            root,
                            open,
                            numbers.take(fret - first + if done { 1int } else { 0int }),
                        ),
                    decreases last - fret + if done { 0int } else { 1int },
                {
                    let note = open + fret;
                    let ghost taken = numbers.take(fret - first);
                    proof {
                        assert(numbers.take(fret - first + 1) =~= taken.push(fret));
                        self.lemma_string_notes_push(root, open, taken, fret);
                    }
                    if contains_pitch_class(&classes, note.pitch_class()) {
                        notes.push(note);
                    }
                    if fret == last {
                        done = true;
                    } else {
                        fret += 1;
                    }
                }
                assert(numbers.take(last - first + 1) =~= numbers);
            } else {
                assert(numbers.take(0) =~= numbers);
            }
            proof {
                let strings = spec_standard_tuning().take(string as int);
                assert(spec_standard_tuning().take(string + 1) =~= strings.push(open));
                self.lemma_tuning_notes_push(root, strings, open, numbers);
            }
            string += 1;
        }
        assert(spec_standard_tuning().take(6) =~= spec_standard_tuning());
        notes
    }
}

/// The intervals of every scale start at the root, rise strictly and stay
/// within one octave.
pub proof fn lemma_intervals_rise(scale: Scale)
    ensures
        scale.spec_intervals().len() > 0,
        scale.spec_intervals()[0] == 0,
        forall|i: int| 0 <= i < scale.spec_intervals().len() ==> scale.spec_intervals()[i] < 12,
        forall|i: int, j: int|
            0 <= i < j < scale.spec_intervals().len() ==> scale.spec_intervals()[i]
                < scale.spec_intervals()[j],
{
}

/// Stepping through the catalog visits all eight scales before it comes
/// back to the one it started from.
pub proof fn lemma_next_is_one_cycle(scale: Scale)
    ensures
        ({
            let s1 = scale.spec_next();
            let s2 = s1.spec_next();
            let s3 = s2.spec_next();
            let s4 = s3.spec_next();
            let s5 = s4.spec_next();
            let s6 = s5.spec_next();
            let s7 = s6.spec_next();
            &&& s7.spec_next() == scale
            &&& seq![scale, s1, s2, s3, s4, s5, s6, s7].no_duplicates()
        }),
{
}

/// A note belongs to the scale on `root` exactly if its pitch class lies
/// one of the scale's intervals above the pitch class of the root. Octaves
/// play no part, and the root itself always belongs.
pub proof fn lemma_has(scale: Scale, root: Note, note: Note)
    ensures
        scale.has(root, note) <==> exists|i: int|
            0 <= i < scale.spec_intervals().len() && note.spec_pitch_class() == (
            root.spec_pitch_class() + #[trigger] scale.spec_intervals()[i]) % 12,
        scale.has(root, root),
{
    let classes = scale.spec_pitch_classes(root);
    let steps = scale.spec_intervals();
    if scale.has(root, note) {
        let i = choose|i: int|
            0 <= i < classes.len() && classes[i] == note.spec_pitch_class() as u8;
        assert(note.spec_pitch_class() == (root.spec_pitch_class() + steps[i]) % 12);
    }
    if exists|i: int|
        0 <= i < steps.len() && note.spec_pitch_class() == (root.spec_pitch_class()
            + #[trigger] steps[i]) % 12 {
        let i = choose|i: int|
            0 <= i < steps.len() && note.spec_pitch_class() == (root.spec_pitch_class()
                + #[trigger] steps[i]) % 12;
        assert(classes[i] == note.spec_pitch_class() as u8);
    }
    assert(classes[0] == root.spec_pitch_class() as u8);
}

/// The notes that `fretboard_notes` gives are exactly the notes of the
/// scale that some string of the standard tuning sounds at some fret of the
/// window.
pub proof fn lemma_fretboard_notes_has(
    scale: Scale,
    root: Note,
    frets: RangeInclusive<u8>,
    note: Note,
)
    ensures
        scale.spec_fretboard_notes(root, frets).contains(note) <==> scale.has(root, note)
            && exists|string: int, fret: int|
            0 <= string < 6 && 0 <= fret < fret_numbers(frets).len()
                && note == #[trigger] spec_standard_tuning()[string].plus(
                fret_numbers(frets)[fret] as int,
            ),
{
    let numbers = fret_numbers(frets);
    let tuning = spec_standard_tuning();
    let per_string = |open: Note| scale.string_notes(root, open, numbers);
    let all = scale.spec_fretboard_notes(root, frets);
    assert forall|string: int, fret: int|
        0 <= string < 6 && 0 <= fret < numbers.len() && scale.has(
            root,
            #[trigger] tuning[string].plus(numbers[fret] as int),
        ) implies all.contains(tuning[string].plus(numbers[fret] as int)) by {
        let open = tuning[string];
        let raised = numbers.map_values(|fret: u8| open.plus(fret as int));
        assert(raised[fret] == open.plus(numbers[fret] as int));
        raised.lemma_filter_contains(|note: Note| scale.has(root, note), fret);
        lemma_flat_map_contains(tuning, per_string, string, open.plus(numbers[fret] as int));
    }
    if all.contains(note) {
        let string = lemma_flat_map_origin(tuning, per_string, note);
        let open = tuning[string];
        let raised = numbers.map_values(|fret: u8| open.plus(fret as int));
        raised.lemma_filter_contains_rev(|note: Note| scale.has(root, note), note);
        let fret = choose|fret: int| 0 <= fret < raised.len() && raised[fret] == note;
        assert(note == tuning[string].plus(numbers[fret] as int));
    }
}

/// What one item of a sequence maps to is part of the flat map of the sequence.
proof fn lemma_flat_map_contains<A, B>(items: Seq<A>, f: spec_fn(A) -> Seq<B>, i: int, value: B)
    requires
        0 <= i < items.len(),
        f(items[i]).contains(value),
    ensures
        items.flat_map(f).contains(value),
    decreases items.len(),
{
    let front = items.drop_last();
    assert(items =~= front.push(items.last()));
    front.lemma_flat_map_push(f, items.last());
    let tail = f(items.last());
    if i == items.len() - 1 {
        let k = choose|k: int| 0 <= k < tail.len() && tail[k] == value;
        assert((front.flat_map(f) + tail)[front.flat_map(f).len() + k] == value);
    } else {
        lemma_flat_map_contains(front, f, i, value);
        let k = choose|k: int| 0 <= k < front.flat_map(f).len() && front.flat_map(f)[k] == value;
        assert((front.flat_map(f) + tail)[k] == value);
    }
}

/// Whatever is part of the flat map of a sequence comes from one of its items.
proof fn lemma_flat_map_origin<A, B>(items: Seq<A>, f: spec_fn(A) -> Seq<B>, value: B) -> (i: int)
    requires
        items.flat_map(f).contains(value),
    ensures
        0 <= i < items.len(),
        f(items[i]).contains(value),
    decreases items.len(),
{
    if items.len() == 0 {
        assert(items.map_values(f) =~= Seq::<Seq<B>>::empty());
        assert(items.flat_map(f) =~= Seq::<B>::empty());
        0
    } else {
        let front = items.drop_last();
        assert(items =~= front.push(items.last()));
        front.lemma_flat_map_push(f, items.last());
        let tail = f(items.last());
        let whole = front.flat_map(f) + tail;
        let k = choose|k: int| 0 <= k < whole.len() && whole[k] == value;
        if k < front.flat_map(f).len() {
            assert(front.flat_map(f)[k] == value);
            lemma_flat_map_origin(front, f, value)
        } else {
            assert(tail[k - front.flat_map(f).len()] == value);
            items.len() - 1
        }
    }
}

} // verus!
