use tuitar::note::Note;
use tuitar::state::State;
use tuitar::transform::{find_peak_bin, peak_has_neighbours};

#[test]
fn peak_is_the_greatest_bin() {
    assert_eq!(find_peak_bin(&[0, 1, 5, 3, 0]), 2);
    assert_eq!(find_peak_bin(&[0, 9, 5, 3, 0]), 1);
    assert_eq!(find_peak_bin(&[0, 1, 5, 30, 0]), 3);
}

#[test]
fn first_and_last_bin_are_not_searched() {
    assert_eq!(find_peak_bin(&[100, 1, 2, 1, 100]), 2);
    assert_eq!(find_peak_bin(&[100, 0, 0, 0, 100]), 1);
    assert_eq!(find_peak_bin(&[u64::MAX, 3, u64::MAX]), 1);
}

#[test]
fn lowest_bin_wins_a_tie() {
    assert_eq!(find_peak_bin(&[0, 4, 7, 7, 2, 7, 0]), 2);
    assert_eq!(find_peak_bin(&[0, 0, 0, 0]), 1);
    assert_eq!(find_peak_bin(&[9, u64::MAX, u64::MAX, 9]), 1);
}

#[test]
fn short_spectra_have_no_bin_to_search() {
    assert_eq!(find_peak_bin(&[]), 0);
    assert_eq!(find_peak_bin(&[5]), 0);
    assert_eq!(find_peak_bin(&[5, 9]), 0);
}

#[test]
fn neighbours_on_either_side() {
    assert!(peak_has_neighbours(2, 5));
    assert!(peak_has_neighbours(2, 256));
    assert!(peak_has_neighbours(253, 256));
    assert!(peak_has_neighbours(128, 256));
}

#[test]
fn first_and_last_searched_bin_have_no_neighbours() {
    assert!(!peak_has_neighbours(1, 3));
    assert!(!peak_has_neighbours(1, 256));
    assert!(!peak_has_neighbours(254, 256));
    assert!(!peak_has_neighbours(1, 4));
    assert!(!peak_has_neighbours(2, 4));
    assert!(!peak_has_neighbours(3, 5));
}

#[test]
fn bins_that_are_not_searched_have_no_neighbours() {
    assert!(!peak_has_neighbours(0, 256));
    assert!(!peak_has_neighbours(255, 256));
    assert!(!peak_has_neighbours(300, 256));
    assert!(!peak_has_neighbours(0, 0));
    assert!(!peak_has_neighbours(0, 1));
    assert!(!peak_has_neighbours(1, 2));
    assert!(!peak_has_neighbours(usize::MAX, usize::MAX));
}

#[test]
fn peak_of_a_search_and_its_neighbours() {
    assert!(!peak_has_neighbours(find_peak_bin(&[0, 1, 0]), 3));
    assert!(!peak_has_neighbours(find_peak_bin(&[1, 0]), 2));
    assert!(!peak_has_neighbours(find_peak_bin(&[0, 9, 1, 1, 0]), 5));
    assert!(peak_has_neighbours(find_peak_bin(&[0, 1, 9, 1, 0]), 5));
    assert!(!peak_has_neighbours(find_peak_bin(&[0, 1, 1, 9, 0]), 5));
    assert!(!peak_has_neighbours(find_peak_bin(&[0; 256]), 256));
}

/// The number of samples in a block.
const FFT_SIZE: usize = 512;

fn sine(frequency: f64, sample_rate: f64) -> [i16; FFT_SIZE] {
    let mut block = [0i16; FFT_SIZE];
    for (i, sample) in block.iter_mut().enumerate() {
        let angle = 2.0 * std::f64::consts::PI * frequency * i as f64 / sample_rate;
        *sample = (10_000.0 * angle.sin()).round() as i16;
    }
    block
}

fn magnitudes(block: &[i16; FFT_SIZE]) -> Vec<f32> {
    let mut buffer = [0.0_f32; FFT_SIZE];
    for (slot, sample) in buffer.iter_mut().zip(block) {
        *slot = *sample as f32;
    }
    let spectrum = microfft::real::rfft_512(&mut buffer);
    spectrum[0].im = 0.0;
    spectrum
        .iter()
        .map(|bin| bin.norm() / (FFT_SIZE as f32).sqrt())
        .collect()
}

fn bin_width(sample_rate: f64) -> f64 {
    sample_rate / 2.0 / FFT_SIZE as f64
}

/// The fundamental of a block: the peak bin of the library, taken as it is
/// on the first and last searched bin and else refined on the logarithms of
/// the three magnitudes round it.
fn fundamental(block: &[i16; FFT_SIZE], sample_rate: f64) -> (usize, f64) {
    let magnitudes = magnitudes(block);
    let keys: Vec<u64> = magnitudes.iter().map(|m| m.to_bits() as u64).collect();
    let peak = find_peak_bin(&keys);
    if !peak_has_neighbours(peak, magnitudes.len()) {
        return (peak, peak as f64 * bin_width(sample_rate));
    }
    let y0 = (magnitudes[peak - 1].max(1e-12) as f64).ln();
    let y1 = (magnitudes[peak].max(1e-12) as f64).ln();
    let y2 = (magnitudes[peak + 1].max(1e-12) as f64).ln();
    let delta = 0.5 * (y0 - y2) / (y0 - 2.0 * y1 + y2);
    (peak, (peak as f64 + delta) * bin_width(sample_rate))
}

fn read(state: &mut State, block: &[i16; FFT_SIZE], sample_rate: f64) -> f64 {
    let (_, frequency) = fundamental(block, sample_rate);
    let pitch = pitchy::Note::new(frequency);
    let note = Note::from_parts(pitch.note_letter(), pitch.octave()).ok();
    state.process_samples(
        block,
        (sample_rate * 1000.0).round() as u64,
        (frequency * 1000.0).round() as u64,
        note,
    );
    frequency
}

#[test]
fn peak_of_a_sine_wave_is_its_bin() {
    let (peak, _) = fundamental(&sine(440.0, 44_100.0), 44_100.0);
    assert_eq!(peak, 5);
    let (peak, _) = fundamental(&sine(1000.0, 44_100.0), 44_100.0);
    assert_eq!(peak, 12);
    let (peak, _) = fundamental(&sine(440.0, 8_000.0), 8_000.0);
    assert_eq!(peak, 28);
}

#[test]
fn refined_position_lies_nearer_than_the_bin() {
    let sample_rate = 44_100.0;
    let (peak, refined) = fundamental(&sine(440.0, sample_rate), sample_rate);
    let position = refined / bin_width(sample_rate);
    let cycles = 440.0 * FFT_SIZE as f64 / sample_rate;
    assert_eq!(peak, 5);
    assert!((position - peak as f64).abs() <= 0.5);
    assert!((position - cycles).abs() < (peak as f64 - cycles).abs());
    assert!((position - 5.0434).abs() < 0.001);
    assert!((refined - 217.19).abs() < 0.01);
}

#[test]
fn bin_centred_sine_is_read_on_its_bin() {
    let sample_rate = 45_056.0;
    let (peak, refined) = fundamental(&sine(440.0, sample_rate), sample_rate);
    assert_eq!(peak, 5);
    assert_eq!(bin_width(sample_rate), 44.0);
    assert!((refined - 220.0).abs() < 0.01);
}

#[test]
fn peak_on_the_first_searched_bin_is_not_refined() {
    let sample_rate = 44_100.0;
    let (peak, frequency) = fundamental(&sine(86.0, sample_rate), sample_rate);
    assert_eq!(peak, 1);
    assert_eq!(frequency, 43.06640625);
}

#[test]
fn silence_reads_the_first_searched_bin() {
    let (peak, frequency) = fundamental(&[0i16; FFT_SIZE], 44_100.0);
    assert_eq!(peak, 1);
    assert!(frequency.is_finite());
    assert_eq!(frequency, 43.06640625);
}

#[test]
fn silence_is_no_note() {
    let mut state = State::new(FFT_SIZE, 6, 2, None);
    let block = [0i16; FFT_SIZE];
    for _ in 0..2 {
        read(&mut state, &block, 44_100.0);
    }
    assert_eq!(state.samples, block.to_vec());
    assert!(state.note_history.is_empty());
    assert_eq!(state.get_current_note(), None);
}

#[test]
fn held_a_is_read_from_two_blocks() {
    let mut state = State::new(FFT_SIZE, 6, 2, None);
    let block = sine(440.0, 44_100.0);
    read(&mut state, &block, 44_100.0);
    let frequency = read(&mut state, &block, 44_100.0);
    assert_eq!(state.samples, block.to_vec());
    assert_eq!(state.sample_rate, 44_100_000);
    let (note, measured) = state.get_current_note().expect("a note is held");
    assert_eq!(note.name(), "A");
    assert_eq!(measured, (frequency * 1000.0).round() as u64);
    let perfect = pitchy::Note::try_from_midi_number(note.semitone_index() + 12)
        .expect("a note of the keyboard")
        .frequency();
    let cents = 1200.0 * (measured as f64 / 1000.0 / perfect).log2();
    assert!(cents.abs() < 50.0);
    assert!((cents + 22.3).abs() < 0.1);
}

#[test]
fn bin_centred_a_is_read_in_tune() {
    let mut state = State::new(FFT_SIZE, 6, 2, None);
    let block = sine(440.0, 45_056.0);
    read(&mut state, &block, 45_056.0);
    read(&mut state, &block, 45_056.0);
    let (note, measured) = state.get_current_note().expect("a note is held");
    assert_eq!(note.name(), "A");
    let perfect = pitchy::Note::try_from_midi_number(note.semitone_index() + 12)
        .expect("a note of the keyboard")
        .frequency();
    let cents = 1200.0 * (measured as f64 / 1000.0 / perfect).log2();
    assert!(cents.abs() < 5.0);
}

#[test]
fn one_block_is_enough_for_a_history_of_one() {
    let mut state = State::new(FFT_SIZE, 6, 2, Some(1));
    read(&mut state, &sine(440.0, 44_100.0), 44_100.0);
    let (note, _) = state.get_current_note().expect("a note is held");
    assert_eq!(note, Note::A(3));
}
