//! The picture of a fretboard as rows of cells: one row for each string,
//! the highest string on top, and one row of fret numbers.
//!
//! A row starts with the name of the open string and a bar. The first fret
//! of the window is drawn one cell wide, each further fret behind a cross and
//! as wide as the room allows, and in place of the last fret stands the
//! closing bar.

use crate::fretboard::{contains_note, FretboardState};
use crate::frets::fret_numbers;
use crate::note::{decimal, digit_char, spec_standard_tuning, standard_tuning, Note};
use std::ops::RangeInclusive;
use vstd::prelude::*;

verus! {

/// The cell that draws a stretch of string.
pub const STRING_SYMBOL: char = '─';

/// The cell that opens and closes the fretboard.
pub const BAR_SYMBOL: char = '║';

/// The cell that stands before a fret.
pub const FRET_SYMBOL: char = '┼';

/// How a cell is to be painted.
#[derive(Debug, Clone, Copy, PartialEq, Eq, Structural)]
pub enum Paint {
    /// Bars, crosses and strings at rest.
    Plain,
    /// The name of an open string.
    NoteName,
    /// A string whose open note is active.
    ActiveString,
    /// The symbol of an active note.
    ActiveNote,
    /// The symbol of a ghost note.
    GhostNote,
    /// The symbol of a fret marker.
    FretMarker,
    /// A fret number.
    FretNumber,
}

/// One cell of the picture.
#[derive(Debug, Clone, Copy, PartialEq, Eq, Structural)]
pub struct Cell {
    pub symbol: char,
    pub paint: Paint,
}

/// Represents a fretboard for displaying musical notes
/// and their positions on a guitar fretboard.
#[derive(Debug, Clone)]
pub struct Fretboard {
    /// The open notes of the strings, lowest string first.
    pub tuning: Vec<Note>,
    /// The symbol used to represent the active note on the fretboard.
    pub active_note_symbol: char,
    /// The symbol used to represent ghost notes on the fretboard.
    pub ghost_note_symbol: char,
    /// The symbol used to represent fret markers.
    pub fret_marker_symbol: char,
}

/// Whether the fret bears a marker: the usual single dots, and fret 12.
pub open spec fn has_marker(fret: u8) -> bool {
    fret == 3 || fret == 5 || fret == 7 || fret == 9 || fret == 12 || fret == 15 || fret == 17
        || fret == 19 || fret == 21
}

/// Whether the marker of the fret is a double one.
pub open spec fn has_double_marker(fret: u8) -> bool {
    fret == 12 || fret == 24
}

/// Whether the marker of the fret is drawn on the given row of a fretboard
/// of `strings` strings: a single marker on the middle row, a double one on
/// the rows next to the middle row, or on the middle row itself where there
/// are fewer than four strings.
pub open spec fn marker_on_row(fret: u8, row: int, strings: int) -> bool {
    has_marker(fret) && if has_double_marker(fret) && strings >= 4 {
        row == strings / 2 - 1 || row == strings / 2 + 1
    } else {
        row == strings / 2
    }
}

/// The cell with the given symbol and paint.
pub open spec fn cell(symbol: char, paint: Paint) -> Cell {
    Cell { symbol, paint }
}

/// `count` cells with one symbol and one paint.
pub open spec fn run(symbol: char, paint: Paint, count: int) -> Seq<Cell> {
    Seq::new(if count > 0 { count as nat } else { 0 }, |i: int| Cell { symbol, paint })
}

/// The text as cells of one paint.
pub open spec fn painted(text: Seq<char>, paint: Paint) -> Seq<Cell>
    decreases text.len(),
{
    if text.len() == 0 {
        Seq::empty()
    } else {
        painted(text.drop_last(), paint).push(cell(text.last(), paint))
    }
}

/// The text with blanks after it, to `width` cells at least.
pub open spec fn padded_right(text: Seq<char>, width: int) -> Seq<char> {
    text + Seq::new(if width > text.len() { (width - text.len()) as nat } else { 0 }, |i: int| ' ')
}

/// The text with blanks before it, to `width` cells at least.
pub open spec fn padded_left(text: Seq<char>, width: int) -> Seq<char> {
    Seq::new(if width > text.len() { (width - text.len()) as nat } else { 0 }, |i: int| ' ') + text
}

/// A symbol in the middle of `width` cells of string, nearer to the left
/// where the two sides cannot be alike.
pub open spec fn centred(symbol: Cell, string: Paint, width: int) -> Seq<Cell> {
    run(STRING_SYMBOL, string, (width - 1) / 2).push(symbol) + run(
        STRING_SYMBOL,
        string,
        width - 1 - (width - 1) / 2,
    )
}

impl Fretboard {
    /// The open note of the string on the given row, where row 0 is the
    /// highest string.
    pub open spec fn open_note(self, row: int) -> Note {
        self.tuning@[self.tuning@.len() - 1 - row]
    }

    /// The paint of the string on the given row: a string whose open note is
    /// active is painted as such.
    pub open spec fn string_paint(self, state: FretboardState, row: int) -> Paint {
        if state.active_notes@.contains(self.open_note(row)) {
            Paint::ActiveString
        } else {
            Paint::Plain
        }
    }

    /// The symbol that stands on the given row at the given fret, if any:
    /// an active note first, else a ghost note, else a fret marker.
    pub open spec fn symbol_at(self, state: FretboardState, row: int, fret: u8) -> Option<Cell> {
        let note = self.open_note(row).plus(fret as int);
        if state.active_notes@.contains(note) {
            Some(Cell { symbol: self.active_note_symbol, paint: Paint::ActiveNote })
        } else if state.ghost_notes@.contains(note) {
            Some(Cell { symbol: self.ghost_note_symbol, paint: Paint::GhostNote })
        } else if marker_on_row(fret, row, self.tuning@.len() as int) {
            Some(Cell { symbol: self.fret_marker_symbol, paint: Paint::FretMarker })
        } else {
            None
        }
    }

    /// The room that each fret but the first gets where the picture is
    /// `width` cells wide.
    pub open spec fn fret_width(state: FretboardState, width: u16) -> int {
        width as int / fret_numbers(state.frets).len() as int
    }

    /// The cells of one fret on one row, `room` cells wide: the symbol that
    /// stands there in the middle of the string, or the string alone.
    pub open spec fn fret_body(self, state: FretboardState, row: int, fret: u8, room: int) -> Seq<
        Cell,
    > {
        match self.symbol_at(state, row, fret) {
            Some(symbol) => centred(symbol, self.string_paint(state, row), room),
            None => run(STRING_SYMBOL, self.string_paint(state, row), room),
        }
    }

    /// The cells that the fret at place `at` of the window adds to a row:
    /// the first fret its body one cell wide, the last fret the closing bar
    /// only, each fret between them a cross and its body.
    pub open spec fn fret_cells(self, state: FretboardState, width: u16, row: int, at: int) -> Seq<
        Cell,
    > {
        let frets = fret_numbers(state.frets);
        if at == 0 {
            self.fret_body(state, row, frets[at], 1)
        } else if at == frets.len() - 1 {
            seq![Cell { symbol: BAR_SYMBOL, paint: Paint::Plain }]
        } else {
            seq![Cell { symbol: FRET_SYMBOL, paint: Paint::Plain }] + self.fret_body(
                state,
                row,
                frets[at],
                Self::fret_width(state, width),
            )
        }
    }

    /// The cells of the first `count` frets of the window on a row.
    pub open spec fn frets_cells(
        self,
        state: FretboardState,
        width: u16,
        row: int,
        count: int,
    ) -> Seq<Cell>
        decreases count,
    {
        if count <= 0 {
            Seq::empty()
        } else {
            self.frets_cells(state, width, row, count - 1) + self.fret_cells(
                state,
                width,
                row,
                count - 1,
            )
        }
    }

    /// The row of a string: the name of its open note on three cells at
    /// least, a bar, and the frets of the window.
    pub open spec fn spec_line(self, state: FretboardState, width: u16, row: int) -> Seq<Cell> {
        painted(padded_right(self.open_note(row).display(), 3), Paint::NoteName).push(
            Cell { symbol: BAR_SYMBOL, paint: Paint::Plain },
        ) + self.frets_cells(state, width, row, fret_numbers(state.frets).len() as int)
    }

    /// The number of the fret at place `at` of the window as it stands in
    /// the row of fret numbers: flush right on three cells for the second
    /// fret of the window, and on one cell more than a fret is wide for the
    /// frets after it.
    pub open spec fn fret_label(state: FretboardState, width: u16, at: int) -> Seq<char> {
        padded_left(
            decimal(fret_numbers(state.frets)[at] as nat),
            if at == 1 {
                3
            } else {
                Self::fret_width(state, width) + 1
            },
        )
    }

    /// The fret numbers of the frets at places 1 to `count - 1` of the
    /// window, one after the other.
    pub open spec fn fret_labels(state: FretboardState, width: u16, count: int) -> Seq<char>
        decreases count,
    {
        if count <= 1 {
            Seq::empty()
        } else {
            Self::fret_labels(state, width, count - 1) + Self::fret_label(state, width, count - 1)
        }
    }

    /// The row of fret numbers: three blanks, then the numbers of all frets
    /// of the window but the first.
    pub open spec fn spec_label_line(state: FretboardState, width: u16) -> Seq<Cell> {
        painted(
            seq![' ', ' ', ' '] + Self::fret_labels(
                state,
                width,
                fret_numbers(state.frets).len() as int,
            ),
            Paint::FretNumber,
        )
    }

    /// Whether the picture can be drawn `width` cells wide: the window holds
    /// a fret, every note of the window is representable on every string,
    /// and where a symbol stands at a fret after the first, that fret has
    /// room for it.
    pub open spec fn drawable(self, state: FretboardState, width: u16) -> bool {
        let frets = fret_numbers(state.frets);
        &&& frets.len() > 0
        &&& forall|row: int|
            0 <= row < self.tuning@.len() ==> (#[trigger] self.open_note(row)).index()
                + state.frets@.end <= 255
        &&& Self::fret_width(state, width) >= 1 || forall|row: int, at: int|
            0 <= row < self.tuning@.len() && 1 <= at < frets.len() ==> (#[trigger] self.symbol_at(
                state,
                row,
                frets[at],
            )) is None
    }
}

/// Tells whether the fret bears a marker on the given row of a fretboard of
/// `strings` strings.
fn marker_stands(fret: u8, row: usize, strings: usize) -> (stands: bool)
    requires
        row < strings,
    ensures
        stands == marker_on_row(fret, row as int, strings as int),
{
    let marked = fret == 3 || fret == 5 || fret == 7 || fret == 9 || fret == 12 || fret == 15
        || fret == 17 || fret == 19 || fret == 21;
    let double = fret == 12 || fret == 24;
    let middle = strings / 2;
    marked && if double && strings >= 4 {
        row == middle - 1 || row == middle + 1
    } else {
        row == middle
    }
}

/// Adds `count` cells with one symbol and one paint.
fn push_run(cells: &mut Vec<Cell>, symbol: char, paint: Paint, count: usize)
    ensures
        final(cells)@ == old(cells)@ + run(symbol, paint, count as int),
{
    let mut done: usize = 0;
    assert(cells@ =~= old(cells)@ + run(symbol, paint, 0));
    while done < count
        invariant
            done <= count,
            cells@ == old(cells)@ + run(symbol, paint, done as int),
        decreases count - done,
    {
        cells.push(Cell { symbol, paint });
        done += 1;
        assert(cells@ =~= old(cells)@ + run(symbol, paint, done as int));
    }
}

/// Adds the cells of a text in one paint.
fn push_text(cells: &mut Vec<Cell>, text: &str, paint: Paint)
    ensures
        final(cells)@ == old(cells)@ + painted(text@, paint),
{
    let len = text.unicode_len();
    let mut done: usize = 0;
    proof {
        assert(text@.take(0) =~= Seq::<char>::empty());
        lemma_painted(Seq::empty(), Seq::empty(), ' ', paint);
        assert(cells@ =~= old(cells)@ + painted(text@.take(0), paint));
    }
    while done < len
        invariant
            done <= len,
            len == text@.len(),
            cells@ == old(cells)@ + painted(text@.take(done as int), paint),
        decreases len - done,
    {
        let symbol = text.get_char(done);
        proof {
            let taken = text@.take(done as int);
            assert(text@.take(done + 1) =~= taken.push(symbol));
            lemma_painted(taken, Seq::empty(), symbol, paint);
        }
        cells.push(Cell { symbol, paint });
        done += 1;
        assert(cells@ =~= old(cells)@ + painted(text@.take(done as int), paint));
    }
    assert(text@.take(done as int) =~= text@);
}

/// Gives the first fret of a window and the number of its frets.
fn window_of(frets: &RangeInclusive<u8>) -> (window: (u8, u16))
    ensures
        window.1 == fret_numbers(*frets).len(),
        forall|at: int| 0 <= at < window.1 ==> fret_numbers(*frets)[at] == window.0 + at,
        window.1 > 0 ==> window.0 == frets@.start && window.0 + window.1 - 1 == frets@.end,
{
    let first: u8 = *frets.start();
    let last: u8 = *frets.end();
    if frets.is_empty() {
        (first, 0)
    } else {
        (first, (last - first) as u16 + 1)
    }
}

/// Gives the character that writes a decimal digit.
fn digit_symbol(digit: u8) -> (symbol: char)
    requires
        digit < 10,
    ensures
        symbol == digit_char(digit as int),
{
    match digit {
        0 => '0',
        1 => '1',
        2 => '2',
        3 => '3',
        4 => '4',
        5 => '5',
        6 => '6',
        7 => '7',
        8 => '8',
        _ => '9',
    }
}

/// Adds a number in decimal, flush right on `width` cells at least.
fn push_number(cells: &mut Vec<Cell>, number: u8, width: usize, paint: Paint)
    ensures
        final(cells)@ == old(cells)@ + painted(
            padded_left(decimal(number as nat), width as int),
            paint,
        ),
{
    let digits: usize = if number >= 100 {
        3
    } else if number >= 10 {
        2
    } else {
        1
    };
    let ghost text = decimal(number as nat);
    let ghost blanks = Seq::new(
        if width > digits {
            (width - digits) as nat
        } else {
            0
        },
        |i: int| ' ',
    );
    proof {
        reveal_with_fuel(decimal, 3);
        assert(text.len() == digits);
        assert(padded_left(text, width as int) =~= blanks + text);
        lemma_painted(blanks, text, ' ', paint);
        lemma_painted(Seq::empty(), blanks, ' ', paint);
        assert(Seq::<char>::empty() + blanks =~= blanks);
        assert(Seq::new(blanks.len(), |i: int| ' ') =~= blanks);
    }
    if width > digits {
        push_run(cells, ' ', paint, width - digits);
    }
    assert(cells@ =~= old(cells)@ + painted(blanks, paint)) by {
        assert(run(' ', paint, 0) =~= Seq::<Cell>::empty());
    }
    let ghost before = cells@;
    if number >= 100 {
        cells.push(Cell { symbol: digit_symbol(number / 100), paint });
    }
    if number >= 10 {
        cells.push(Cell { symbol: digit_symbol((number / 10) % 10), paint });
    }
    cells.push(Cell { symbol: digit_symbol(number % 10), paint });
    proof {
        lemma_painted_cells(text, paint);
        assert(cells@ =~= before + painted(text, paint));
    }
}

impl Default for Fretboard {
    /// Creates a default `Fretboard` with standard guitar tuning.
    fn default() -> (board: Self)
        ensures
            board.tuning@ == spec_standard_tuning(),
            board.active_note_symbol == '⬤',
            board.ghost_note_symbol == '✖',
            board.fret_marker_symbol == '•',
    {
        let standard = standard_tuning();
        let mut tuning: Vec<Note> = Vec::new();
        let mut string: usize = 0;
        while string < 6
            invariant
                string <= 6,
                standard@ == spec_standard_tuning(),
                tuning@ == spec_standard_tuning().take(string as int),
            decreases 6 - string,
        {
            tuning.push(standard[string]);
            string += 1;
            assert(tuning@ =~= spec_standard_tuning().take(string as int));
        }
        assert(tuning@ =~= spec_standard_tuning());
        Self {
            tuning,
            active_note_symbol: '⬤',
            ghost_note_symbol: '✖',
            fret_marker_symbol: '•',
        }
    }
}

impl Fretboard {
    /// Creates a new `Fretboard` with default settings.
    ///
    /// This is equivalent to `Fretboard::default()`.
    pub fn new() -> (board: Self)
        ensures
            board.tuning@ == spec_standard_tuning(),
            board.active_note_symbol == '⬤',
            board.ghost_note_symbol == '✖',
            board.fret_marker_symbol == '•',
    {
        Self::default()
    }

    /// Sets the names of the strings on the fretboard.
    pub fn with_tuning(self, tuning: Vec<Note>) -> (board: Self)
        ensures
            board.tuning == tuning,
            board.active_note_symbol == self.active_note_symbol,
            board.ghost_note_symbol == self.ghost_note_symbol,
            board.fret_marker_symbol == self.fret_marker_symbol,
    {
        let mut board = self;
        board.tuning = tuning;
        board
    }

    /// Sets the symbol used to represent the active note on the fretboard.
    pub fn with_active_note_symbol(self, symbol: char) -> (board: Self)
        ensures
            board.tuning == self.tuning,
            board.active_note_symbol == symbol,
            board.ghost_note_symbol == self.ghost_note_symbol,
            board.fret_marker_symbol == self.fret_marker_symbol,
    {
        let mut board = self;
        board.active_note_symbol = symbol;
        board
    }

    /// Sets the symbol used to represent ghost notes on the fretboard.
    pub fn with_ghost_note_symbol(self, symbol: char) -> (board: Self)
        ensures
            board.tuning == self.tuning,
            board.active_note_symbol == self.active_note_symbol,
            board.ghost_note_symbol == symbol,
            board.fret_marker_symbol == self.fret_marker_symbol,
    {
        let mut board = self;
        board.ghost_note_symbol = symbol;
        board
    }

    /// Sets the symbol used to represent fret markers.
    pub fn with_fret_marker_symbol(self, symbol: char) -> (board: Self)
        ensures
            board.tuning == self.tuning,
            board.active_note_symbol == self.active_note_symbol,
            board.ghost_note_symbol == self.ghost_note_symbol,
            board.fret_marker_symbol == symbol,
    {
        let mut board = self;
        board.fret_marker_symbol = symbol;
        board
    }

    /// Tells whether the open note of the string on the given row is active.
    pub fn is_string_active(&self, state: &FretboardState, row: usize) -> (active: bool)
        requires
            row < self.tuning@.len(),
        ensures
            active == (self.string_paint(*state, row as int) == Paint::ActiveString),
    {
        contains_note(&state.active_notes, self.tuning[self.tuning.len() - 1 - row])
    }

    fn symbol_for(&self, state: &FretboardState, row: usize, fret: u8) -> (symbol: Option<Cell>)
        requires
            row < self.tuning@.len(),
            self.open_note(row as int).index() + fret <= 255,
        ensures
            symbol == self.symbol_at(*state, row as int, fret),
    {
        let note = self.tuning[self.tuning.len() - 1 - row] + fret;
        if contains_note(&state.active_notes, note) {
            Some(Cell { symbol: self.active_note_symbol, paint: Paint::ActiveNote })
        } else if contains_note(&state.ghost_notes, note) {
            Some(Cell { symbol: self.ghost_note_symbol, paint: Paint::GhostNote })
        } else if marker_stands(fret, row, self.tuning.len()) {
            Some(Cell { symbol: self.fret_marker_symbol, paint: Paint::FretMarker })
        } else {
            None
        }
    }

    fn push_fret_body(
        &self,
        cells: &mut Vec<Cell>,
        state: &FretboardState,
        row: usize,
        fret: u8,
        room: usize,
    )
        requires
            row < self.tuning@.len(),
            self.open_note(row as int).index() + fret <= 255,
            self.symbol_at(*state, row as int, fret) is Some ==> room >= 1,
        ensures
            final(cells)@ == old(cells)@ + self.fret_body(*state, row as int, fret, room as int),
    {
        let string = if self.is_string_active(state, row) {
            Paint::ActiveString
        } else {
            Paint::Plain
        };
        match self.symbol_for(state, row, fret) {
            Some(symbol) => {
                let left: usize = (room - 1) / 2;
                push_run(cells, STRING_SYMBOL, string, left);
                cells.push(symbol);
                push_run(cells, STRING_SYMBOL, string, room - 1 - left);
                assert(cells@ =~= old(cells)@ + centred(symbol, string, room as int));
            },
            None => {
                push_run(cells, STRING_SYMBOL, string, room);
            },
        }
    }

    /// Tells whether the picture can be drawn `width` cells wide.
    pub fn is_drawable(&self, state: &FretboardState, width: u16) -> (drawable: bool)
        ensures
            drawable == self.drawable(*state, width),
    {
        let (first, count) = window_of(&state.frets);
        if count == 0 {
            return false;
        }
        let last: u8 = first + ((count - 1) as u8);
        let room: u16 = width / count;
        let strings = self.tuning.len();
        let mut row: usize = 0;
        while row < strings
            invariant
                row <= strings,
                strings == self.tuning@.len(),
                count == fret_numbers(state.frets).len(),
                count > 0,
                forall|k: int| 0 <= k < count ==> fret_numbers(state.frets)[k] == first + k,
                last == state.frets@.end,
                first + count - 1 == last,
                room == Self::fret_width(*state, width),
                forall|done: int|
                    0 <= done < row ==> (#[trigger] self.open_note(done)).index() + last <= 255,
                room >= 1 || forall|done: int, at: int|
                    0 <= done < row && 1 <= at < count ==> (#[trigger] self.symbol_at(
                        *state,
                        done,
                        fret_numbers(state.frets)[at],
                    )) is None,
            decreases strings - row,
        {
            let open = self.tuning[strings - 1 - row];
            let index: u16 = open.pitch_class() as u16 + 12 * (open.octave() as u16);
            if index + last as u16 > 255 {
                assert(self.open_note(row as int).index() + state.frets@.end > 255);
                return false;
            }
            if room < 1 {
                let mut at: u16 = 1;
                while at < count
                    invariant
                        1 <= at <= count,
                        row < strings,
                        strings == self.tuning@.len(),
                        count == fret_numbers(state.frets).len(),
                        forall|k: int|
                            0 <= k < count ==> fret_numbers(state.frets)[k] == first + k,
                        first + count - 1 == last,
                        self.open_note(row as int).index() + last <= 255,
                        room == Self::fret_width(*state, width),
                        room < 1,
                        forall|seen: int|
                            1 <= seen < at ==> (#[trigger] self.symbol_at(
                                *state,
                                row as int,
                                fret_numbers(state.frets)[seen],
                            )) is None,
                    decreases count - at,
                {
                    let fret: u8 = first + (at as u8);
                    if self.symbol_for(state, row, fret).is_some() {
                        assert(self.symbol_at(
                            *state,
                            row as int,
                            fret_numbers(state.frets)[at as int],
                        ) is Some);
                        return false;
                    }
                    at += 1;
                }
            }
            row += 1;
        }
        true
    }

    /// Draws the row of the string on the given row, where row 0 is the
    /// highest string, for a picture `width` cells wide.
    pub fn line(&self, state: &FretboardState, width: u16, row: usize) -> (cells: Vec<Cell>)
        requires
            row < self.tuning@.len(),
            self.drawable(*state, width),
        ensures
            cells@ == self.spec_line(*state, width, row as int),
    {
        let (first, count) = window_of(&state.frets);
        let room: usize = (width / count) as usize;
        let open = self.tuning[self.tuning.len() - 1 - row];
        let mut cells: Vec<Cell> = Vec::new();
        let name = open.to_string();
        push_text(&mut cells, name.as_str(), Paint::NoteName);
        let len = name.as_str().unicode_len();
        if len < 3 {
            push_run(&mut cells, ' ', Paint::NoteName, 3 - len);
        }
        cells.push(Cell { symbol: BAR_SYMBOL, paint: Paint::Plain });
        let ghost start = cells@;
        proof {
            let text = open.display();
            let blanks = padded_right(text, 3).skip(text.len() as int);
            assert(padded_right(text, 3) =~= text + blanks);
            assert(blanks =~= Seq::new(blanks.len(), |i: int| ' '));
            lemma_painted(text, blanks, ' ', Paint::NoteName);
            assert(run(' ', Paint::NoteName, 0) =~= Seq::<Cell>::empty());
            assert(start =~= painted(padded_right(text, 3), Paint::NoteName).push(
                Cell { symbol: BAR_SYMBOL, paint: Paint::Plain },
            ));
            assert(self.open_note(row as int) == open);
        }
        let mut at: u16 = 0;
        while at < count
            invariant
                at <= count,
                count == fret_numbers(state.frets).len(),
                count > 0,
                forall|k: int| 0 <= k < count ==> fret_numbers(state.frets)[k] == first + k,
                first + count - 1 == state.frets@.end,
                room == Self::fret_width(*state, width),
                row < self.tuning@.len(),
                self.drawable(*state, width),
                cells@ == start + self.frets_cells(*state, width, row as int, at as int),
            decreases count - at,
        {
            let fret: u8 = first + (at as u8);
            proof {
                assert(self.open_note(row as int).index() + state.frets@.end <= 255);
                assert(fret_numbers(state.frets)[at as int] == fret);
                if at >= 1 && room < 1 {
                    assert(self.symbol_at(*state, row as int, fret_numbers(state.frets)[at as int])
                        is None);
                }
            }
            let ghost before = cells@;
            if at == 0 {
                self.push_fret_body(&mut cells, state, row, fret, 1);
            } else if at == count - 1 {
                cells.push(Cell { symbol: BAR_SYMBOL, paint: Paint::Plain });
            } else {
                cells.push(Cell { symbol: FRET_SYMBOL, paint: Paint::Plain });
                self.push_fret_body(&mut cells, state, row, fret, room);
            }
            assert(cells@ =~= before + self.fret_cells(*state, width, row as int, at as int));
            at += 1;
        }
        cells
    }

    /// Draws the rows of all strings, the highest string first, for a
    /// picture `width` cells wide.
    pub fn lines(&self, state: &FretboardState, width: u16) -> (rows: Vec<Vec<Cell>>)
        requires
            self.drawable(*state, width),
        ensures
            rows@.len() == self.tuning@.len(),
            forall|row: int|
                0 <= row < rows@.len() ==> (#[trigger] rows@[row])@ == self.spec_line(
                    *state,
                    width,
                    row,
                ),
    {
        let mut rows: Vec<Vec<Cell>> = Vec::new();
        let mut row: usize = 0;
        while row < self.tuning.len()
            invariant
                row <= self.tuning@.len(),
                self.drawable(*state, width),
                rows@.len() == row,
                forall|done: int|
                    0 <= done < row ==> (#[trigger] rows@[done])@ == self.spec_line(
                        *state,
                        width,
                        done,
                    ),
            decreases self.tuning@.len() - row,
        {
            rows.push(self.line(state, width, row));
            row += 1;
        }
        rows
    }
}

impl Fretboard {
    /// Draws the row of fret numbers for a picture `width` cells wide.
    pub fn label_line(state: &FretboardState, width: u16) -> (cells: Vec<Cell>)
        requires
            fret_numbers(state.frets).len() > 0,
        ensures
            cells@ == Self::spec_label_line(*state, width),
    {
        let (first, count) = window_of(&state.frets);
        let room: usize = (width / count) as usize;
        let mut cells: Vec<Cell> = Vec::new();
        push_run(&mut cells, ' ', Paint::FretNumber, 3);
        let ghost lead = seq![' ', ' ', ' '];
        proof {
            assert(lead =~= Seq::new(3, |i: int| ' '));
            lemma_painted(Seq::empty(), lead, ' ', Paint::FretNumber);
            lemma_painted(lead, Seq::empty(), ' ', Paint::FretNumber);
            assert(lead + Seq::<char>::empty() =~= lead);
            assert(cells@ =~= painted(
                lead + Self::fret_labels(*state, width, 1),
                Paint::FretNumber,
            ));
        }
        let mut at: u16 = 1;
        while at < count
            invariant
                1 <= at <= count,
                count == fret_numbers(state.frets).len(),
                forall|k: int| 0 <= k < count ==> fret_numbers(state.frets)[k] == first + k,
                room == Self::fret_width(*state, width),
                lead == seq![' ', ' ', ' '],
                cells@ == painted(
                    lead + Self::fret_labels(*state, width, at as int),
                    Paint::FretNumber,
                ),
            decreases count - at,
        {
            let fret: u8 = first + (at as u8);
            let ghost before = lead + Self::fret_labels(*state, width, at as int);
            let ghost label = Self::fret_label(*state, width, at as int);
            proof {
                lemma_painted(before, label, ' ', Paint::FretNumber);
                assert(lead + Self::fret_labels(*state, width, at + 1) =~= before + label);
            }
            if at == 1 {
                push_number(&mut cells, fret, 3, Paint::FretNumber);
            } else {
                push_number(&mut cells, fret, room + 1, Paint::FretNumber);
            }
            at += 1;
        }
        cells
    }
}

/// A fret is as wide as its room, with or without a symbol on it, as long
/// as a symbol has a cell to stand on.
pub proof fn lemma_fret_body_len(
    board: Fretboard,
    state: FretboardState,
    row: int,
    fret: u8,
    room: int,
)
    requires
        room >= 1 || (room == 0 && board.symbol_at(state, row, fret) is None),
    ensures
        board.fret_body(state, row, fret, room).len() == room,
{
}

/// All rows of a picture whose string names take three cells at most are
/// equally long: four cells for the name and the bar, one for the first
/// fret, one for the closing bar, and for each fret in between one more than
/// a fret is wide.
pub proof fn lemma_line_len(board: Fretboard, state: FretboardState, width: u16, row: int)
    requires
        board.drawable(state, width),
        0 <= row < board.tuning@.len(),
        board.open_note(row).display().len() <= 3,
        Fretboard::fret_width(state, width) >= 1,
    ensures
        board.spec_line(state, width, row).len() == if fret_numbers(state.frets).len() == 1 {
            5
        } else {
            6 + (fret_numbers(state.frets).len() - 2) * (Fretboard::fret_width(state, width) + 1)
        },
{
    let count = fret_numbers(state.frets).len() as int;
    lemma_painted_cells(padded_right(board.open_note(row).display(), 3), Paint::NoteName);
    lemma_frets_cells_len(board, state, width, row, count);
    if count > 1 {
        lemma_frets_cells_len(board, state, width, row, count - 1);
    }
}

/// The length of the first frets of a row, short of the last fret of the
/// window.
proof fn lemma_frets_cells_len(
    board: Fretboard,
    state: FretboardState,
    width: u16,
    row: int,
    count: int,
)
    requires
        Fretboard::fret_width(state, width) >= 1,
        1 <= count <= fret_numbers(state.frets).len(),
    ensures
        board.frets_cells(state, width, row, count).len() == if count
            == fret_numbers(state.frets).len() && count > 1 {
            2 + (count - 2) * (Fretboard::fret_width(state, width) + 1)
        } else {
            1 + (count - 1) * (Fretboard::fret_width(state, width) + 1)
        },
    decreases count,
{
    let room = Fretboard::fret_width(state, width);
    let frets = fret_numbers(state.frets);
    if count == 1 {
        assert(board.frets_cells(state, width, row, 0).len() == 0);
        lemma_fret_body_len(board, state, row, frets[0], 1);
    } else {
        lemma_frets_cells_len(board, state, width, row, count - 1);
        lemma_fret_body_len(board, state, row, frets[count - 1], room);
        assert((count - 1) * (room + 1) == (count - 2) * (room + 1) + (room + 1))
            by (nonlinear_arith);
    }
}

/// Painting goes cell by cell: the cells of a text are as many as its
/// symbols, each with the symbol at its place.
pub proof fn lemma_painted_cells(text: Seq<char>, paint: Paint)
    ensures
        painted(text, paint).len() == text.len(),
        forall|i: int|
            0 <= i < text.len() ==> (#[trigger] painted(text, paint)[i]) == cell(text[i], paint),
    decreases text.len(),
{
    if text.len() > 0 {
        lemma_painted_cells(text.drop_last(), paint);
    }
}

/// Painting a text in two parts or as a whole gives the same cells, and
/// painted blanks are a run of blanks.
proof fn lemma_painted(front: Seq<char>, back: Seq<char>, symbol: char, paint: Paint)
    ensures
        painted(Seq::empty(), paint) == Seq::<Cell>::empty(),
        painted(front.push(symbol), paint) == painted(front, paint).push(Cell { symbol, paint }),
        painted(front + back, paint) == painted(front, paint) + painted(back, paint),
        painted(Seq::new(back.len(), |i: int| symbol), paint) == run(
            symbol,
            paint,
            back.len() as int,
        ),
{
    assert(front.push(symbol).drop_last() =~= front);
    lemma_painted_cells(front, paint);
    lemma_painted_cells(back, paint);
    lemma_painted_cells(front + back, paint);
    lemma_painted_cells(Seq::new(back.len(), |i: int| symbol), paint);
    assert(painted(front + back, paint) =~= painted(front, paint) + painted(back, paint));
    assert(painted(Seq::new(back.len(), |i: int| symbol), paint) =~= run(
        symbol,
        paint,
        back.len() as int,
    ));
}

} // verus!
