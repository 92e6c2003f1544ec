use tuitar::note::{standard_tuning, Note};
use tuitar::utils::{generate_random_note, note_on_string};

#[test]
fn note_on_string_raises_the_open_note() {
    assert_eq!(note_on_string(0, 0), Note::E(2));
    assert_eq!(note_on_string(0, 1), Note::F(2));
    assert_eq!(note_on_string(1, 3), Note::C(3));
    assert_eq!(note_on_string(4, 1), Note::C(4));
    assert_eq!(note_on_string(5, 12), Note::E(5));
    assert_eq!(note_on_string(5, 203), Note::DSharp(21));
}

#[test]
fn random_note_lies_on_the_window() {
    fastrand::seed(7);
    let frets = 3..=9;
    for _ in 0..2000 {
        let note = generate_random_note(&frets);
        let found = standard_tuning().iter().any(|open| {
            frets
                .clone()
                .any(|fret| *open + fret == note)
        });
        assert!(found, "{note:?} is not on the window");
    }
}

#[test]
fn random_note_on_a_window_of_one_fret() {
    let frets = 5..=5;
    for _ in 0..200 {
        let note = generate_random_note(&frets);
        assert!(standard_tuning().iter().any(|open| *open + 5 == note));
    }
}

#[test]
fn random_notes_vary() {
    fastrand::seed(11);
    let frets = 0..=12;
    let first = generate_random_note(&frets);
    let varied = (0..200).any(|_| generate_random_note(&frets) != first);
    assert!(varied);
}

#[test]
fn random_notes_reach_every_string_and_fret() {
    fastrand::seed(3);
    let frets = 0..=2;
    let mut seen = std::collections::HashSet::new();
    for _ in 0..5000 {
        seen.insert(generate_random_note(&frets).semitone_index());
    }
    for open in standard_tuning() {
        for fret in 0..=2u8 {
            assert!(seen.contains(&(open + fret).semitone_index()));
        }
    }
}
