use tuitar::fretboard::FretboardState;
use tuitar::layout::{Cell, Fretboard, Paint};
use tuitar::note::{standard_tuning, Note};

fn text(cells: &[Cell]) -> String {
    cells.iter().map(|cell| cell.symbol).collect()
}

/// The picture as it shows on a screen of the given size: rows cut or filled
/// with blanks to the width, and blank rows below.
fn picture(board: &Fretboard, state: &FretboardState, width: u16, height: usize) -> Vec<String> {
    let mut rows: Vec<String> = board
        .lines(state, width)
        .iter()
        .map(|row| text(row))
        .collect();
    rows.push(text(&Fretboard::label_line(state, width)));
    let mut shown: Vec<String> = rows
        .iter()
        .map(|row| {
            let mut cut: String = row.chars().take(width as usize).collect();
            while cut.chars().count() < width as usize {
                cut.push(' ');
            }
            cut
        })
        .collect();
    while shown.len() < height {
        shown.push(" ".repeat(width as usize));
    }
    shown.truncate(height);
    shown
}

fn state(active: Vec<Note>, ghost: Vec<Note>, frets: std::ops::RangeInclusive<u8>) -> FretboardState {
    FretboardState {
        active_notes: active,
        ghost_notes: ghost,
        frets,
    }
}

#[test]
fn render_fretboard_wide_display() {
    let board = Fretboard::default();
    let state = state(vec![Note::A(4)], Vec::new(), 0..=12);
    assert_eq!(
        picture(&board, &state, 51, 7),
        vec![
            "E4 ║─┼───┼───┼───┼───┼─⬤─┼───┼───┼───┼───┼───┼───║ ",
            "B3 ║─┼───┼───┼───┼───┼───┼───┼───┼───┼───┼─⬤─┼───║ ",
            "G3 ║─┼───┼───┼───┼───┼───┼───┼───┼───┼───┼───┼───║ ",
            "D3 ║─┼───┼───┼─•─┼───┼─•─┼───┼─•─┼───┼─•─┼───┼───║ ",
            "A2 ║─┼───┼───┼───┼───┼───┼───┼───┼───┼───┼───┼───║ ",
            "E2 ║─┼───┼───┼───┼───┼───┼───┼───┼───┼───┼───┼───║ ",
            "     1   2   3   4   5   6   7   8   9  10  11  12 ",
        ]
    );
}

#[test]
fn render_fretboard_narrow_display() {
    let board = Fretboard::default();
    let state = state(vec![Note::F(4)], Vec::new(), 0..=6);
    assert_eq!(
        picture(&board, &state, 36, 13),
        vec![
            "E4 ║─┼──⬤──┼─────┼─────┼─────┼─────║",
            "B3 ║─┼─────┼─────┼─────┼─────┼─────║",
            "G3 ║─┼─────┼─────┼─────┼─────┼─────║",
            "D3 ║─┼─────┼─────┼──•──┼─────┼──•──║",
            "A2 ║─┼─────┼─────┼─────┼─────┼─────║",
            "E2 ║─┼─────┼─────┼─────┼─────┼─────║",
            "     1     2     3     4     5     6",
            "                                    ",
            "                                    ",
            "                                    ",
            "                                    ",
            "                                    ",
            "                                    ",
        ]
    );
}

#[test]
fn render_fretboard_single_string_open_note() {
    let board = Fretboard::default().with_tuning(vec![Note::E(2)]);
    let state = state(vec![Note::F(2)], Vec::new(), 0..=3);
    assert_eq!(
        picture(&board, &state, 20, 3),
        vec![
            "E2 ║─┼──⬤──┼─────║  ",
            "     1     2     3  ",
            "                    ",
        ]
    );
}

#[test]
fn render_fretboard_two_strings_custom_frets() {
    let board = Fretboard::default().with_tuning(vec![Note::A(2), Note::D(3)]);
    let state = state(vec![Note::F(3)], Vec::new(), 2..=5);
    assert_eq!(
        picture(&board, &state, 24, 4),
        vec![
            "D3 ║─┼──⬤───┼──────║    ",
            "A2 ║─┼──•───┼──────║    ",
            "     3      4      5    ",
            "                        ",
        ]
    );
}

#[test]
fn render_fretboard_custom_tuning_bass_style() {
    let board =
        Fretboard::default().with_tuning(vec![Note::B(1), Note::E(2), Note::A(2), Note::D(3)]);
    let state = state(vec![Note::E(3)], Vec::new(), 0..=4);
    assert_eq!(
        picture(&board, &state, 34, 6),
        vec![
            "D3 ║─┼──────┼──⬤───┼──────║       ",
            "A2 ║─┼──────┼──────┼──────║       ",
            "E2 ║─┼──────┼──────┼──•───║       ",
            "B1 ║─┼──────┼──────┼──────║       ",
            "     1      2      3      4       ",
            "                                  ",
        ]
    );
}

#[test]
fn render_fretboard_compact_display_limited_width() {
    let board = Fretboard::default().with_tuning(vec![Note::E(4), Note::B(3), Note::G(3)]);
    let state = state(vec![Note::FSharp(4)], Vec::new(), 0..=3);
    assert_eq!(
        picture(&board, &state, 26, 6),
        vec![
            "G3 ║─┼──────┼──────║      ",
            "B3 ║─┼──────┼──────║      ",
            "E4 ║─┼──────┼──⬤───║      ",
            "     1      2      3      ",
            "                          ",
            "                          ",
        ]
    );
}

#[test]
fn render_fretboard_extremely_long_fretboard() {
    let board = Fretboard::default().with_tuning(standard_tuning().to_vec());
    let state = state(vec![Note::FSharp(4), Note::F(3)], Vec::new(), 0..=20);
    assert_eq!(
        picture(&board, &state, 120, 7),
        vec![
            "E4 ║─┼─────┼──⬤──┼─────┼─────┼─────┼─────┼─────┼─────┼─────┼─────┼─────┼─────┼─────┼─────┼─────┼─────┼─────┼─────┼─────║",
            "B3 ║─┼─────┼─────┼─────┼─────┼─────┼─────┼──⬤──┼─────┼─────┼─────┼─────┼─────┼─────┼─────┼─────┼─────┼─────┼─────┼─────║",
            "G3 ║─┼─────┼─────┼─────┼─────┼─────┼─────┼─────┼─────┼─────┼─────┼──⬤──┼──•──┼─────┼─────┼─────┼─────┼─────┼─────┼─────║",
            "D3 ║─┼─────┼─────┼──⬤──┼─────┼──•──┼─────┼──•──┼─────┼──•──┼─────┼─────┼─────┼─────┼─────┼──•──┼──⬤──┼──•──┼─────┼──•──║",
            "A2 ║─┼─────┼─────┼─────┼─────┼─────┼─────┼─────┼──⬤──┼─────┼─────┼─────┼──•──┼─────┼─────┼─────┼─────┼─────┼─────┼─────║",
            "E2 ║─┼─────┼─────┼─────┼─────┼─────┼─────┼─────┼─────┼─────┼─────┼─────┼─────┼──⬤──┼─────┼─────┼─────┼─────┼─────┼─────║",
            "     1     2     3     4     5     6     7     8     9    10    11    12    13    14    15    16    17    18    19    20",
        ]
    );
}

#[test]
fn render_fretboard_absurdly_big_fretboard() {
    let tuning = vec![
        Note::C(3),
        Note::G(2),
        Note::D(2),
        Note::A(1),
        Note::E(1),
        Note::B(0),
        Note::F(0),
        Note::C(0),
        Note::G(0),
        Note::D(0),
    ];
    let board = Fretboard::default().with_tuning(tuning.clone());
    let state = state(
        tuning,
        vec![Note::E(4), Note::A(3), Note::D(3), Note::G(2), Note::B(2)],
        0..=16,
    );
    assert_eq!(
        picture(&board, &state, 60, 12),
        vec![
            "D0 ║⬤┼───┼───┼─⬤─┼───┼─⬤─┼───┼───┼───┼─⬤─┼───┼───┼───┼───┼─⬤",
            "G0 ║⬤┼───┼───┼───┼─⬤─┼───┼───┼───┼───┼─⬤─┼───┼───┼───┼───┼─⬤",
            "C0 ║⬤┼───┼─⬤─┼───┼───┼─⬤─┼───┼─⬤─┼───┼───┼───┼─⬤─┼───┼───┼──",
            "F0 ║⬤┼───┼─⬤─┼───┼───┼───┼─⬤─┼───┼───┼───┼───┼─⬤─┼───┼───┼──",
            "B0 ║⬤┼───┼───┼───┼───┼─⬤─┼───┼───┼───┼───┼─⬤─┼───┼─•─┼───┼──",
            "E1 ║⬤┼───┼───┼─•─┼───┼─⬤─┼───┼─•─┼───┼─•─┼─⬤─┼───┼───┼───┼──",
            "A1 ║⬤┼───┼───┼───┼───┼─⬤─┼───┼───┼───┼───┼─⬤─┼───┼─•─┼───┼─✖",
            "D2 ║⬤┼───┼───┼───┼───┼─⬤─┼───┼───┼───┼─✖─┼─⬤─┼───┼─✖─┼───┼──",
            "G2 ║⬤┼───┼───┼───┼─✖─┼─⬤─┼───┼─✖─┼───┼───┼───┼───┼───┼───┼─✖",
            "C3 ║⬤┼───┼─✖─┼───┼───┼───┼───┼───┼───┼─✖─┼───┼───┼───┼───┼──",
            "     1   2   3   4   5   6   7   8   9  10  11  12  13  14  ",
            "                                                            ",
        ]
    );
}

#[test]
fn cells_carry_their_paint() {
    let board = Fretboard::default().with_tuning(vec![Note::E(2)]);
    let state = state(vec![Note::E(2), Note::F(2)], vec![Note::G(2)], 0..=4);
    let row = board.line(&state, 20, 0);
    let paints: Vec<Paint> = row.iter().map(|cell| cell.paint).collect();
    assert_eq!(text(&row), "E2 ║⬤┼─⬤──┼────┼─✖──║");
    assert_eq!(&paints[..3], &[Paint::NoteName; 3]);
    assert_eq!(paints[3], Paint::Plain);
    assert_eq!(paints[4], Paint::ActiveNote);
    assert_eq!(paints[5], Paint::Plain);
    assert_eq!(paints[6], Paint::ActiveString);
    assert_eq!(paints[7], Paint::ActiveNote);
    assert_eq!(paints[8], Paint::ActiveString);
    assert_eq!(paints[16], Paint::ActiveString);
    assert_eq!(paints[17], Paint::GhostNote);
    assert_eq!(paints[20], Paint::Plain);
    assert!(board.is_string_active(&state, 0));
    let labels = Fretboard::label_line(&state, 20);
    assert!(labels.iter().all(|cell| cell.paint == Paint::FretNumber));
    assert_eq!(text(&labels), "     1    2    3    4");
}

#[test]
fn fret_marker_gets_its_paint_and_symbol() {
    let board = Fretboard::default()
        .with_tuning(vec![Note::E(2)])
        .with_fret_marker_symbol('o')
        .with_active_note_symbol('A')
        .with_ghost_note_symbol('G');
    let state = state(vec![Note::F(2)], vec![Note::FSharp(2)], 0..=4);
    let row = board.line(&state, 15, 0);
    assert_eq!(text(&row), "E2 ║─┼─A─┼─G─┼─o─║");
    assert_eq!(row[15].paint, Paint::FretMarker);
    assert_eq!(row[6].paint, Paint::Plain);
    assert!(!board.is_string_active(&state, 0));
}

#[test]
fn double_marker_stands_beside_the_middle_row() {
    let board = Fretboard::new();
    let state = state(Vec::new(), Vec::new(), 11..=13);
    let rows: Vec<String> = board.lines(&state, 9).iter().map(|row| text(row)).collect();
    assert_eq!(
        rows,
        vec![
            "E4 ║─┼───║",
            "B3 ║─┼───║",
            "G3 ║─┼─•─║",
            "D3 ║─┼───║",
            "A2 ║─┼─•─║",
            "E2 ║─┼───║",
        ]
    );
    assert_eq!(text(&Fretboard::label_line(&state, 9)), "    12  13");
}

#[test]
fn long_names_take_their_room() {
    let board = Fretboard::new().with_tuning(vec![Note::CSharp(10)]);
    let state = state(Vec::new(), Vec::new(), 0..=1);
    assert_eq!(text(&board.line(&state, 4, 0)), "C#10║─║");
    let state = state_of_one_fret();
    assert_eq!(text(&board.line(&state, 4, 0)), "C#10║•");
    assert_eq!(text(&Fretboard::label_line(&state, 4)), "   ");
}

fn state_of_one_fret() -> FretboardState {
    FretboardState::new(5..=5)
}
