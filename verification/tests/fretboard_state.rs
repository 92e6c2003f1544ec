use tuitar::note::Note;
use tuitar::FretboardState;

#[test]
fn new_state_holds_no_notes() {
    let state = FretboardState::new(0..=6);
    assert_eq!(state.active_notes, Vec::<Note>::new());
    assert_eq!(state.ghost_notes, Vec::<Note>::new());
    assert_eq!(state.frets, 0..=6);
}

#[test]
fn default_state_shows_twelve_frets() {
    let state = FretboardState::default();
    assert_eq!(state.active_notes, Vec::<Note>::new());
    assert_eq!(state.ghost_notes, Vec::<Note>::new());
    assert_eq!(state.frets, 0..=12);
}

#[test]
fn ghost_notes_are_kept_in_order_without_repeats() {
    let mut state = FretboardState::new(0..=6);
    state.set_ghost_note(Note::F(4));
    state.set_ghost_note(Note::FSharp(3));
    state.set_ghost_note(Note::F(4));
    assert_eq!(vec![Note::F(4), Note::FSharp(3)], state.ghost_notes);
    assert_eq!(Vec::<Note>::new(), state.active_notes);
}

#[test]
fn active_note_leaves_the_ghost_notes() {
    let mut state = FretboardState::new(0..=6);
    state.set_ghost_note(Note::F(4));
    state.set_ghost_note(Note::FSharp(3));
    state.set_active_note(Note::F(4));
    state.set_active_note(Note::F(3));
    assert_eq!(vec![Note::FSharp(3)], state.ghost_notes);
    assert_eq!(vec![Note::F(4), Note::F(3)], state.active_notes);
    assert!(!state.ghost_notes.contains(&Note::F(4)));
    assert!(state.active_notes.contains(&Note::F(4)));
}

#[test]
fn active_note_takes_every_copy_out_of_the_ghost_notes() {
    let mut state = FretboardState {
        active_notes: Vec::new(),
        ghost_notes: vec![Note::A(2), Note::C(3), Note::A(2), Note::D(3)],
        frets: 0..=6,
    };
    state.set_active_note(Note::A(2));
    assert_eq!(state.ghost_notes, vec![Note::C(3), Note::D(3)]);
    assert_eq!(state.active_notes, vec![Note::A(2)]);
}

#[test]
fn active_note_is_set_once() {
    let mut state = FretboardState::new(0..=6);
    state.set_active_note(Note::A(2));
    state.set_active_note(Note::A(2));
    state.set_active_note(Note::A(3));
    assert_eq!(state.active_notes, vec![Note::A(2), Note::A(3)]);
}

#[test]
fn several_active_notes_at_once() {
    let mut state = FretboardState::default();
    state.set_ghost_notes(vec![Note::G(3), Note::B(3), Note::D(3)]);
    state.set_active_notes(vec![Note::G(3), Note::D(3), Note::G(3)]);
    assert_eq!(state.active_notes, vec![Note::G(3), Note::D(3)]);
    assert_eq!(state.ghost_notes, vec![Note::B(3)]);
    state.clear_active_notes();
    assert_eq!(state.active_notes, Vec::<Note>::new());
    state.set_active_notes(vec![Note::ASharp(3), Note::F(3)]);
    assert_eq!(state.active_notes, vec![Note::ASharp(3), Note::F(3)]);
    state.set_active_notes(Vec::new());
    assert_eq!(state.active_notes, vec![Note::ASharp(3), Note::F(3)]);
}

#[test]
fn several_ghost_notes_at_once() {
    let mut state = FretboardState::default();
    state.set_active_note(Note::E(2));
    state.set_ghost_notes(vec![Note::E(2), Note::A(2), Note::E(2), Note::A(2)]);
    assert_eq!(state.ghost_notes, vec![Note::E(2), Note::A(2)]);
    assert_eq!(state.active_notes, vec![Note::E(2)]);
    state.set_ghost_notes(vec![Note::D(3), Note::A(2)]);
    assert_eq!(state.ghost_notes, vec![Note::E(2), Note::A(2), Note::D(3)]);
}

#[test]
fn clearing_one_list_leaves_the_other() {
    let mut state = FretboardState::new(2..=9);
    state.set_ghost_note(Note::F(4));
    state.set_active_note(Note::G(4));
    state.clear_ghost_notes();
    assert_eq!(state.ghost_notes, Vec::<Note>::new());
    assert_eq!(state.active_notes, vec![Note::G(4)]);
    state.set_ghost_note(Note::F(4));
    state.clear_active_notes();
    assert_eq!(state.ghost_notes, vec![Note::F(4)]);
    assert_eq!(state.active_notes, Vec::<Note>::new());
    assert_eq!(state.frets, 2..=9);
}

#[test]
fn frets_are_set() {
    let mut state = FretboardState::new(0..=6);
    state.set_active_note(Note::FSharp(3));
    state.set_frets(7..=13);
    assert_eq!(state.frets, 7..=13);
    assert_eq!(state.active_notes, vec![Note::FSharp(3)]);
    state.set_frets(10..=16);
    assert_eq!(state.frets, 10..=16);
}

#[test]
fn a_copy_holds_the_same_and_goes_its_own_way() {
    let mut state = FretboardState::new(3..=9);
    state.set_ghost_note(Note::F(4));
    state.set_active_note(Note::G(4));
    let mut copy = state.clone();
    assert_eq!(copy.active_notes, vec![Note::G(4)]);
    assert_eq!(copy.ghost_notes, vec![Note::F(4)]);
    assert_eq!(copy.frets, 3..=9);
    copy.set_active_note(Note::F(4));
    copy.set_frets(0..=1);
    assert_eq!(state.ghost_notes, vec![Note::F(4)]);
    assert_eq!(state.active_notes, vec![Note::G(4)]);
    assert_eq!(state.frets, 3..=9);
}
