use tuitar::note::Note;
use tuitar::state::{
    NoteHistory, State, DEFAULT_MAX_HISTORY, MAX_FREQ_MILLIHERTZ, MIN_FREQ_MILLIHERTZ,
};

fn history(state: &State) -> Vec<(Note, u64)> {
    state
        .note_history
        .iter()
        .map(|reading| (reading.note, reading.fundamental_frequency))
        .collect()
}

#[test]
fn new_state_is_empty() {
    let state = State::new(1024, 6, 2, None);
    assert_eq!(state.samples, Vec::<i16>::new());
    assert_eq!(state.sample_rate, 0);
    assert_eq!(state.fret_count, 6);
    assert_eq!(state.bottom_padding, 2);
    assert_eq!(state.max_history, DEFAULT_MAX_HISTORY);
    assert_eq!(state.max_history, 2);
    assert!(state.note_history.is_empty());
    assert_eq!(state.get_current_note(), None);
    assert_eq!(state.get_most_frequent_note(), None);
    assert_eq!(State::new(0, 12, 5, Some(5)).max_history, 5);
}

#[test]
fn samples_and_rate_are_kept() {
    let mut state = State::new(4, 6, 2, None);
    state.process_samples(&[1, -2, 3], 44_100_000, 440_000, Some(Note::A(4)));
    assert_eq!(state.samples, vec![1, -2, 3]);
    assert_eq!(state.sample_rate, 44_100_000);
    state.process_samples(&[7], 8_000_000, 10, None);
    assert_eq!(state.samples, vec![7]);
    assert_eq!(state.sample_rate, 8_000_000);
    assert_eq!(history(&state), vec![(Note::A(4), 440_000)]);
}

#[test]
fn frequencies_outside_the_range_are_passed_over() {
    assert_eq!(MIN_FREQ_MILLIHERTZ, 80_000);
    assert_eq!(MAX_FREQ_MILLIHERTZ, 1_320_000);
    let mut state = State::new(0, 6, 2, Some(8));
    state.process_samples(&[], 1, 79_999, Some(Note::DSharp(2)));
    state.process_samples(&[], 1, 0, Some(Note::C(0)));
    state.process_samples(&[], 1, 1_320_001, Some(Note::E(6)));
    state.process_samples(&[], 1, u64::MAX, Some(Note::E(6)));
    assert!(state.note_history.is_empty());
    state.process_samples(&[], 1, 80_000, Some(Note::DSharp(2)));
    state.process_samples(&[], 1, 1_320_000, Some(Note::E(6)));
    assert_eq!(
        history(&state),
        vec![(Note::DSharp(2), 80_000), (Note::E(6), 1_320_000)]
    );
}

#[test]
fn readings_without_a_note_are_passed_over() {
    let mut state = State::new(0, 6, 2, None);
    state.process_samples(&[], 1, 440_000, None);
    assert!(state.note_history.is_empty());
    assert_eq!(state.get_current_note(), None);
}

#[test]
fn history_evicts_the_oldest_reading() {
    for cap in 1..=5usize {
        let mut state = State::new(0, 6, 2, Some(cap));
        let readings: Vec<(Note, u64)> = (0..=cap as u64)
            .map(|i| (Note::from_semitone_index(40 + i as u8), 100_000 + i))
            .collect();
        for (note, frequency) in &readings {
            state.process_samples(&[], 1, *frequency, Some(*note));
            assert!(state.note_history.len() <= cap);
        }
        assert_eq!(history(&state), readings[1..].to_vec());
    }
}

#[test]
fn history_of_no_room_stays_empty() {
    let mut state = State::new(0, 6, 2, Some(0));
    state.process_samples(&[], 1, 440_000, Some(Note::A(4)));
    assert!(state.note_history.is_empty());
    assert_eq!(state.get_current_note(), None);
}

#[test]
fn history_keeps_the_order_of_arrival() {
    let mut state = State::new(0, 6, 2, Some(3));
    for frequency in [100_000u64, 200_000, 300_000, 400_000, 500_000] {
        state.process_samples(&[], 1, frequency, Some(Note::A(4)));
    }
    assert_eq!(
        history(&state),
        vec![
            (Note::A(4), 300_000),
            (Note::A(4), 400_000),
            (Note::A(4), 500_000)
        ]
    );
}

#[test]
fn no_note_while_the_readings_disagree() {
    let mut state = State::new(0, 6, 2, None);
    state.process_samples(&[], 1, 440_000, Some(Note::A(4)));
    state.process_samples(&[], 1, 466_160, Some(Note::ASharp(4)));
    assert_eq!(state.get_current_note(), None);
    assert_eq!(state.get_most_frequent_note(), None);
}

#[test]
fn newest_reading_once_the_readings_agree() {
    let mut state = State::new(0, 6, 2, None);
    state.process_samples(&[], 1, 440_000, Some(Note::A(4)));
    assert_eq!(state.get_current_note(), Some((Note::A(4), 440_000)));
    state.process_samples(&[], 1, 445_000, Some(Note::A(4)));
    assert_eq!(state.get_current_note(), Some((Note::A(4), 445_000)));
    assert_eq!(state.get_most_frequent_note(), Some(445_000));
    state.process_samples(&[], 1, 466_160, Some(Note::ASharp(4)));
    assert_eq!(state.get_current_note(), None);
    state.process_samples(&[], 1, 470_000, Some(Note::ASharp(4)));
    assert_eq!(state.get_current_note(), Some((Note::ASharp(4), 470_000)));
}

#[test]
fn octaves_do_not_count_for_agreement() {
    let mut state = State::new(0, 6, 2, Some(3));
    state.process_samples(&[], 1, 110_000, Some(Note::A(2)));
    state.process_samples(&[], 1, 220_000, Some(Note::A(3)));
    state.process_samples(&[], 1, 440_000, Some(Note::A(4)));
    assert_eq!(state.get_current_note(), Some((Note::A(4), 440_000)));
}

#[test]
fn all_readings_must_agree_in_a_longer_history() {
    let mut state = State::new(0, 6, 2, Some(4));
    state.process_samples(&[], 1, 440_000, Some(Note::A(4)));
    state.process_samples(&[], 1, 440_000, Some(Note::A(4)));
    state.process_samples(&[], 1, 330_000, Some(Note::E(4)));
    state.process_samples(&[], 1, 440_000, Some(Note::A(4)));
    assert_eq!(state.get_current_note(), None);
    for _ in 0..3 {
        state.process_samples(&[], 1, 441_000, Some(Note::A(4)));
    }
    assert_eq!(state.get_current_note(), Some((Note::A(4), 441_000)));
}

#[test]
fn a_passed_over_reading_leaves_the_note() {
    let mut state = State::new(0, 6, 2, None);
    state.process_samples(&[], 1, 440_000, Some(Note::A(4)));
    state.process_samples(&[], 1, 442_000, Some(Note::A(4)));
    state.process_samples(&[], 1, 20_000, Some(Note::DSharp(0)));
    state.process_samples(&[], 1, 2_000_000, None);
    assert_eq!(state.get_current_note(), Some((Note::A(4), 442_000)));
}

#[test]
fn readings_can_be_written_down() {
    let reading = NoteHistory {
        note: Note::A(4),
        fundamental_frequency: 445_000,
    };
    assert_eq!(reading, reading.clone());
    assert_eq!(reading.note.name(), "A");
}

#[test]
fn cents_of_a_sharp_a4() {
    let mut state = State::new(0, 6, 2, None);
    state.process_samples(&[], 1, 445_000, Some(Note::A(4)));
    state.process_samples(&[], 1, 445_000, Some(Note::A(4)));
    let (note, measured) = state.get_current_note().unwrap();
    assert_eq!(note, Note::A(4));
    let perfect = 440.0_f64;
    let cents = 1200.0 * ((measured as f64 / 1000.0) / perfect).log2();
    assert!(cents > 0.0);
    assert!((cents - 19.56).abs() < 0.01);
}
