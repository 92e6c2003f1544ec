//! Musical notes: one of twelve pitch classes together with an octave.
//!
//! A note is identified by its semitone index, `pitch class + 12 * octave`.
//! The index of a note fits in a `u8` up to `D#21`; such notes are called
//! representable, and all index arithmetic is stated for them.

use crate::error::Error;
use vstd::prelude::*;

verus! {

/// Represents a musical note with its pitch and octave.
#[derive(Clone, Copy, Debug, PartialEq, Eq, Structural)]
pub enum Note {
    C(u8),
    CSharp(u8),
    D(u8),
    DSharp(u8),
    E(u8),
    F(u8),
    FSharp(u8),
    G(u8),
    GSharp(u8),
    A(u8),
    ASharp(u8),
    B(u8),
}

/// The note with pitch class `pc`, for `0 <= pc < 12`, in the given octave.
pub open spec fn note_of(pc: int, octave: u8) -> Note {
    if pc == 0 {
        Note::C(octave)
    } else if pc == 1 {
        Note::CSharp(octave)
    } else if pc == 2 {
        Note::D(octave)
    } else if pc == 3 {
        Note::DSharp(octave)
    } else if pc == 4 {
        Note::E(octave)
    } else if pc == 5 {
        Note::F(octave)
    } else if pc == 6 {
        Note::FSharp(octave)
    } else if pc == 7 {
        Note::G(octave)
    } else if pc == 8 {
        Note::GSharp(octave)
    } else if pc == 9 {
        Note::A(octave)
    } else if pc == 10 {
        Note::ASharp(octave)
    } else {
        Note::B(octave)
    }
}

/// The note whose semitone index is `index`, for `0 <= index < 256 * 12`.
pub open spec fn note_at(index: int) -> Note {
    note_of(index % 12, (index / 12) as u8)
}

/// The name of a pitch class, `"C"`, `"C#"`, ..., `"B"`.
pub open spec fn pitch_class_name(pc: int) -> Seq<char> {
    if pc == 0 {
        seq!['C']
    } else if pc == 1 {
        seq!['C', '#']
    } else if pc == 2 {
        seq!['D']
    } else if pc == 3 {
        seq!['D', '#']
    } else if pc == 4 {
        seq!['E']
    } else if pc == 5 {
        seq!['F']
    } else if pc == 6 {
        seq!['F', '#']
    } else if pc == 7 {
        seq!['G']
    } else if pc == 8 {
        seq!['G', '#']
    } else if pc == 9 {
        seq!['A']
    } else if pc == 10 {
        seq!['A', '#']
    } else {
        seq!['B']
    }
}

impl Note {
    /// The pitch class of the note: 0 for C up to 11 for B.
    pub open spec fn spec_pitch_class(self) -> int {
        match self {
            Note::C(_) => 0,
            Note::CSharp(_) => 1,
            Note::D(_) => 2,
            Note::DSharp(_) => 3,
            Note::E(_) => 4,
            Note::F(_) => 5,
            Note::FSharp(_) => 6,
            Note::G(_) => 7,
            Note::GSharp(_) => 8,
            Note::A(_) => 9,
            Note::ASharp(_) => 10,
            Note::B(_) => 11,
        }
    }

    /// The octave of the note.
    pub open spec fn spec_octave(self) -> u8 {
        match self {
            Note::C(o) => o,
            Note::CSharp(o) => o,
            Note::D(o) => o,
            Note::DSharp(o) => o,
            Note::E(o) => o,
            Note::F(o) => o,
            Note::FSharp(o) => o,
            Note::G(o) => o,
            Note::GSharp(o) => o,
            Note::A(o) => o,
            Note::ASharp(o) => o,
            Note::B(o) => o,
        }
    }

    /// The semitone index of the note as a mathematical integer.
    pub open spec fn index(self) -> int {
        self.spec_pitch_class() + 12 * self.spec_octave()
    }

    /// The note `semitones` above this one.
    pub open spec fn plus(self, semitones: int) -> Note {
        note_at(self.index() + semitones)
    }

    /// Whether the semitone index of the note fits in a `u8`.
    pub open spec fn is_representable(self) -> bool {
        self.index() <= 255
    }

    /// Returns the pitch class of the note, 0 for C up to 11 for B.
    pub fn pitch_class(&self) -> (pc: u8)
        ensures
            pc == self.spec_pitch_class(),
            pc < 12,
    {
        match self {
            Note::C(_) => 0,
            Note::CSharp(_) => 1,
            Note::D(_) => 2,
            Note::DSharp(_) => 3,
            Note::E(_) => 4,
            Note::F(_) => 5,
            Note::FSharp(_) => 6,
            Note::G(_) => 7,
            Note::GSharp(_) => 8,
            Note::A(_) => 9,
            Note::ASharp(_) => 10,
            Note::B(_) => 11,
        }
    }

    /// Returns the octave of the note.
    pub fn octave(&self) -> (octave: u8)
        ensures
            octave == self.spec_octave(),
    {
        match self {
            Note::C(o) => *o,
            Note::CSharp(o) => *o,
            Note::D(o) => *o,
            Note::DSharp(o) => *o,
            Note::E(o) => *o,
            Note::F(o) => *o,
            Note::FSharp(o) => *o,
            Note::G(o) => *o,
            Note::GSharp(o) => *o,
            Note::A(o) => *o,
            Note::ASharp(o) => *o,
            Note::B(o) => *o,
        }
    }

    /// Returns the name of the note's pitch class as a string.
    pub fn name(&self) -> (name: &'static str)
        ensures
            name@ == pitch_class_name(self.spec_pitch_class()),
    {
        proof {
            reveal_strlit("C");
            reveal_strlit("C#");
            reveal_strlit("D");
            reveal_strlit("D#");
            reveal_strlit("E");
            reveal_strlit("F");
            reveal_strlit("F#");
            reveal_strlit("G");
            reveal_strlit("G#");
            reveal_strlit("A");
            reveal_strlit("A#");
            reveal_strlit("B");
        }
        let name = match self {
            Note::C(_) => "C",
            Note::CSharp(_) => "C#",
            Note::D(_) => "D",
            Note::DSharp(_) => "D#",
            Note::E(_) => "E",
            Note::F(_) => "F",
            Note::FSharp(_) => "F#",
            Note::G(_) => "G",
            Note::GSharp(_) => "G#",
            Note::A(_) => "A",
            Note::ASharp(_) => "A#",
            Note::B(_) => "B",
        };
        assert(name@ =~= pitch_class_name(self.spec_pitch_class()));
        name
    }

    /// Returns the semitone index of the note, `pitch class + 12 * octave`.
    pub fn semitone_index(&self) -> (index: u8)
        requires
            self.is_representable(),
        ensures
            index == self.index(),
    {
        let offset: u8 = self.pitch_class();
        let octave: u8 = self.octave();
        offset + octave * 12
    }

    /// Converts a semitone index to the `Note` that has it.
    pub fn from_semitone_index(semitones: u8) -> (note: Note)
        ensures
            note == note_at(semitones as int),
            note.index() == semitones,
            note.is_representable(),
    {
        let octave: u8 = semitones / 12;
        match semitones % 12 {
            0 => Note::C(octave),
            1 => Note::CSharp(octave),
            2 => Note::D(octave),
            3 => Note::DSharp(octave),
            4 => Note::E(octave),
            5 => Note::F(octave),
            6 => Note::FSharp(octave),
            7 => Note::G(octave),
            8 => Note::GSharp(octave),
            9 => Note::A(octave),
            10 => Note::ASharp(octave),
            _ => Note::B(octave),
        }
    }
}

/// The open strings of a 6-string guitar in standard tuning, low to high.
pub open spec fn spec_standard_tuning() -> Seq<Note> {
    seq![Note::E(2), Note::A(2), Note::D(3), Note::G(3), Note::B(3), Note::E(4)]
}

/// Returns the standard tuning of a 6-string guitar, low to high.
pub fn standard_tuning() -> (tuning: [Note; 6])
    ensures
        tuning@ == spec_standard_tuning(),
{
    let tuning = [Note::E(2), Note::A(2), Note::D(3), Note::G(3), Note::B(3), Note::E(4)];
    assert(tuning@ =~= spec_standard_tuning());
    tuning
}

impl core::ops::Add<u8> for Note {
    type Output = Self;

    /// Adds a number of semitones to the note. The sum must be representable.
    fn add(self, other: u8) -> (sum: Self) {
        Note::from_semitone_index(self.semitone_index() + other)
    }
}

impl vstd::std_specs::ops::AddSpecImpl<u8> for Note {
    open spec fn obeys_add_spec() -> bool {
        true
    }

    open spec fn add_req(self, rhs: u8) -> bool {
        self.index() + rhs <= 255
    }

    open spec fn add_spec(self, rhs: u8) -> Self {
        self.plus(rhs as int)
    }
}

/// The character that writes the decimal digit `d`, for `0 <= d < 10`.
pub open spec fn digit_char(d: int) -> char {
    ('0' as int + d) as char
}

/// The decimal notation of `n`, without leading zeros.
pub open spec fn decimal(n: nat) -> Seq<char>
    decreases n,
{
    if n < 10 {
        seq![digit_char(n as int)]
    } else {
        decimal(n / 10).push(digit_char((n % 10) as int))
    }
}

/// Whether `c` is one of the letters `A` to `G`.
pub open spec fn is_note_letter(c: char) -> bool {
    c == 'A' || c == 'B' || c == 'C' || c == 'D' || c == 'E' || c == 'F' || c == 'G'
}

/// The pitch class written by a note letter and an optional sharp sign.
/// The letters `E` and `B` have no sharp: the sign leaves them as they are.
pub open spec fn letter_pitch_class(letter: char, sharp: bool) -> int {
    if letter == 'C' {
        if sharp { 1 } else { 0 }
    } else if letter == 'D' {
        if sharp { 3 } else { 2 }
    } else if letter == 'E' {
        4
    } else if letter == 'F' {
        if sharp { 6 } else { 5 }
    } else if letter == 'G' {
        if sharp { 8 } else { 7 }
    } else if letter == 'A' {
        if sharp { 10 } else { 9 }
    } else {
        11
    }
}

/// Whether `c` is a decimal digit.
pub open spec fn is_digit(c: char) -> bool {
    '0' <= c <= '9'
}

/// What parsing the text `s` gives: a letter `A` to `G`, then an optional
/// `#`, then an optional octave digit (0 when absent). Anything after that
/// is ignored. A text that does not begin with a note letter has no letter.
pub open spec fn parse_note(s: Seq<char>) -> Result<Note, Error> {
    if s.len() == 0 || !is_note_letter(s[0]) {
        Err(Error::MissingLetter)
    } else {
        let sharp = s.len() > 1 && s[1] == '#';
        let at: int = if sharp { 2 } else { 1 };
        let octave: u8 = if s.len() > at && is_digit(s[at]) {
            (s[at] as int - '0' as int) as u8
        } else {
            0
        };
        Ok(note_of(letter_pitch_class(s[0], sharp), octave))
    }
}

fn digit_str(d: u8) -> (text: &'static str)
    requires
        d < 10,
    ensures
        text@ == seq![digit_char(d as int)],
{
    proof {
        reveal_strlit("0");
        reveal_strlit("1");
        reveal_strlit("2");
        reveal_strlit("3");
        reveal_strlit("4");
        reveal_strlit("5");
        reveal_strlit("6");
        reveal_strlit("7");
        reveal_strlit("8");
        reveal_strlit("9");
    }
    let text = match d {
        0 => "0",
        1 => "1",
        2 => "2",
        3 => "3",
        4 => "4",
        5 => "5",
        6 => "6",
        7 => "7",
        8 => "8",
        _ => "9",
    };
    assert(text@ =~= seq![digit_char(d as int)]);
    text
}

impl Note {
    /// The text that `to_string` gives: the pitch-class name followed by the
    /// octave in decimal, as in `C#4`.
    pub open spec fn display(self) -> Seq<char> {
        pitch_class_name(self.spec_pitch_class()) + decimal(self.spec_octave() as nat)
    }

    /// Formats the note as a string.
    pub fn to_string(&self) -> (text: String)
        ensures
            text@ == self.display(),
    {
        let octave: u8 = self.octave();
        let mut text = String::from_str(self.name());
        if octave >= 100 {
            text.append(digit_str(octave / 100));
        }
        if octave >= 10 {
            text.append(digit_str((octave / 10) % 10));
        }
        text.append(digit_str(octave % 10));
        proof {
            reveal_with_fuel(decimal, 3);
            assert(text@ =~= self.display());
        }
        text
    }
}

/// The pitch class that a pitch-class name stands for, if it is one of the
/// twelve names `C`, `C#`, `D`, `D#`, `E`, `F`, `F#`, `G`, `G#`, `A`, `A#`, `B`.
pub open spec fn name_pitch_class(name: Seq<char>) -> Option<int> {
    if name.len() == 1 && is_note_letter(name[0]) {
        Some(letter_pitch_class(name[0], false))
    } else if name.len() == 2 && name[1] == '#' && (name[0] == 'C' || name[0] == 'D' || name[0]
        == 'F' || name[0] == 'G' || name[0] == 'A') {
        Some(letter_pitch_class(name[0], true))
    } else {
        None
    }
}

/// Whether `built` is what a pitch-class name and an octave number give:
/// without a name the letter is missing, without an octave the octave is
/// missing, a name that is none of the twelve is reported back as invalid,
/// and otherwise the note has the named pitch class and the octave number
/// cut to eight bits.
pub open spec fn built_from(
    letter: Option<Seq<char>>,
    octave: Option<i8>,
    built: Result<Note, Error>,
) -> bool {
    match (letter, octave) {
        (None, _) => built == Err::<Note, Error>(Error::MissingLetter),
        (Some(_), None) => built == Err::<Note, Error>(Error::MissingOctave),
        (Some(name), Some(octave)) => match name_pitch_class(name) {
            Some(pc) => built == Ok::<Note, Error>(note_of(pc, octave as u8)),
            None => built matches Err(Error::InvalidLetter(text)) && text@ == name,
        },
    }
}

fn pitch_class_of_name(name: &str) -> (pc: Option<u8>)
    ensures
        pc is Some == name_pitch_class(name@) is Some,
        pc matches Some(p) ==> name_pitch_class(name@) == Some(p as int),
{
    let len: usize = name.unicode_len();
    if len == 1 {
        let letter = name.get_char(0);
        match letter {
            'C' => Some(0),
            'D' => Some(2),
            'E' => Some(4),
            'F' => Some(5),
            'G' => Some(7),
            'A' => Some(9),
            'B' => Some(11),
            _ => None,
        }
    } else if len == 2 && name.get_char(1) == '#' {
        let letter = name.get_char(0);
        match letter {
            'C' => Some(1),
            'D' => Some(3),
            'F' => Some(6),
            'G' => Some(8),
            'A' => Some(10),
            _ => None,
        }
    } else {
        None
    }
}

impl Note {
    /// Builds a note from the name of its pitch class and its octave number,
    /// where either may be missing.
    pub fn from_parts(letter: Option<&str>, octave: Option<i8>) -> (built: Result<Note, Error>)
        ensures
            built_from(
                match letter {
                    Some(name) => Some(name@),
                    None => None,
                },
                octave,
                built,
            ),
    {
        let name = match letter {
            Some(name) => name,
            None => {
                return Err(Error::MissingLetter);
            },
        };
        let octave = match octave {
            Some(octave) => #[verifier::truncate]
            (octave as u8),
            None => {
                return Err(Error::MissingOctave);
            },
        };
        match pitch_class_of_name(name) {
            Some(pc) => Ok(
                match pc {
                    0 => Note::C(octave),
                    1 => Note::CSharp(octave),
                    2 => Note::D(octave),
                    3 => Note::DSharp(octave),
                    4 => Note::E(octave),
                    5 => Note::F(octave),
                    6 => Note::FSharp(octave),
                    7 => Note::G(octave),
                    8 => Note::GSharp(octave),
                    9 => Note::A(octave),
                    10 => Note::ASharp(octave),
                    _ => Note::B(octave),
                },
            ),
            None => Err(Error::InvalidLetter(String::from_str(name))),
        }
    }
}

impl core::convert::TryFrom<String> for Note {
    type Error = Error;

    /// Converts a string to a `Note`.
    fn try_from(s: String) -> (parsed: Result<Self, Error>) {
        let text = s.as_str();
        let len: usize = text.unicode_len();
        if len == 0 {
            return Err(Error::MissingLetter);
        }
        let letter = text.get_char(0);
        if !(letter == 'A' || letter == 'B' || letter == 'C' || letter == 'D' || letter == 'E'
            || letter == 'F' || letter == 'G') {
            return Err(Error::MissingLetter);
        }
        let sharp = len > 1 && text.get_char(1) == '#';
        let at: usize = if sharp { 2 } else { 1 };
        let mut octave: u8 = 0;
        if len > at {
            let c = text.get_char(at);
            if '0' <= c && c <= '9' {
                octave = (c as u8) - 48;
            }
        }
        let note = match letter {
            'C' => if sharp { Note::CSharp(octave) } else { Note::C(octave) },
            'D' => if sharp { Note::DSharp(octave) } else { Note::D(octave) },
            'E' => Note::E(octave),
            'F' => if sharp { Note::FSharp(octave) } else { Note::F(octave) },
            'G' => if sharp { Note::GSharp(octave) } else { Note::G(octave) },
            'A' => if sharp { Note::ASharp(octave) } else { Note::A(octave) },
            _ => Note::B(octave),
        };
        Ok(note)
    }
}

impl vstd::std_specs::convert::TryFromSpecImpl<String> for Note {
    open spec fn obeys_try_from_spec() -> bool {
        true
    }

    open spec fn try_from_spec(s: String) -> Result<Self, Error> {
        parse_note(s@)
    }
}

/// Every semitone index is the index of the note made from it.
pub proof fn lemma_index_of_note_at(index: u8)
    ensures
        note_at(index as int).index() == index,
        note_at(index as int).is_representable(),
{
}

/// Every representable note is the note made from its semitone index.
pub proof fn lemma_note_at_index(note: Note)
    requires
        note.is_representable(),
    ensures
        note_at(note.index()) == note,
{
}

/// Two representable notes with the same semitone index are the same note.
pub proof fn lemma_index_injective(a: Note, b: Note)
    requires
        a.is_representable(),
        b.is_representable(),
        a.index() == b.index(),
    ensures
        a == b,
{
    lemma_note_at_index(a);
    lemma_note_at_index(b);
}

/// Adding semitones in two steps is adding their sum in one step, as long as
/// the result stays representable. In particular adding `k` semitones is
/// adding one semitone `k` times.
pub proof fn lemma_plus_plus(note: Note, first: u8, second: u8)
    requires
        note.index() + first + second <= 255,
    ensures
        note.plus(first as int).plus(second as int) == note.plus(first + second),
{
}

/// Adding no semitones to a representable note leaves it as it is.
pub proof fn lemma_plus_zero(note: Note)
    requires
        note.is_representable(),
    ensures
        note.plus(0) == note,
{
}

/// Adding semitones raises the semitone index by that number, and the
/// pitch class moves round the circle of twelve.
pub proof fn lemma_plus_index(note: Note, semitones: u8)
    requires
        note.index() + semitones <= 255,
    ensures
        note.plus(semitones as int).index() == note.index() + semitones,
        note.plus(semitones as int).is_representable(),
        note.plus(semitones as int).spec_pitch_class() == (note.spec_pitch_class() + semitones)
            % 12,
{
}

/// Parsing undoes formatting: the text of a note whose octave is a single
/// digit parses back to that note.
pub proof fn lemma_parse_display(note: Note)
    requires
        note.spec_octave() <= 9,
    ensures
        parse_note(note.display()) == Ok::<Note, Error>(note),
{
    let text = note.display();
    let name = pitch_class_name(note.spec_pitch_class());
    assert(decimal(note.spec_octave() as nat) == seq![digit_char(note.spec_octave() as int)]);
    assert(text.len() == name.len() + 1);
    assert(text[0] == name[0]);
    if name.len() == 2 {
        assert(text[1] == name[1]);
        assert(text[2] == digit_char(note.spec_octave() as int));
    } else {
        assert(text[1] == digit_char(note.spec_octave() as int));
    }
}

} // verus!
