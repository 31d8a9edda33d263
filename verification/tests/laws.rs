//! Step-level checks of the stream laws: determinism, octave alignment,
//! orthogonality of key shift and mode rotation, and the lookup tables.

use diatonic::{interval, FreqGenerator, Key, Mode, ScaleGenerator};

const MODES: [Mode; 7] = [Mode::A, Mode::B, Mode::C, Mode::D, Mode::E, Mode::F, Mode::G];

fn degrees(mut sg: ScaleGenerator, n: usize) -> Vec<u32> {
    let mut out: Vec<u32> = Vec::new();
    for _ in 0..n {
        out.push(sg.next());
    }
    out
}

#[test]
fn determinism() {
    let a = degrees(ScaleGenerator::new(FreqGenerator::new(0, 12), Mode::D), 30);
    let b = degrees(ScaleGenerator::new(FreqGenerator::new(0, 12), Mode::D), 30);
    assert_eq!(a, b);
}

#[test]
fn ionian_degree_steps() {
    let got = degrees(ScaleGenerator::new(FreqGenerator::new(0, 12), Mode::A), 7);
    assert_eq!(got, vec![2, 4, 5, 7, 9, 11, 12]);
}

#[test]
fn mode_rotation_changes_intervals() {
    // The Aeolian-side rotation flattens the third: its early degrees differ
    // from the Ionian ones in spacing, not only in starting pitch.
    let ionian = degrees(ScaleGenerator::new(FreqGenerator::new(0, 12), Mode::A), 3);
    let rotated = degrees(ScaleGenerator::new(FreqGenerator::new(0, 12), Mode::F), 3);
    assert_eq!(ionian, vec![2, 4, 5]);
    assert_eq!(rotated, vec![2, 3, 5]);
}

#[test]
fn octave_alignment_every_mode() {
    for mode in MODES {
        let out = degrees(ScaleGenerator::new(FreqGenerator::new(0, 12), mode), 14);
        for i in 0usize..7 {
            assert_eq!(out[i + 7], out[i] + 12);
        }
    }
}

#[test]
fn key_shift_orthogonal_to_mode() {
    for mode in MODES {
        let plain = degrees(ScaleGenerator::new(FreqGenerator::new(0, 12), mode), 20);
        let shifted = degrees(ScaleGenerator::new(FreqGenerator::new(0, 12).skip(5), mode), 20);
        for i in 0usize..20 {
            assert_eq!(shifted[i], plain[i] + 5);
        }
    }
}

#[test]
fn alternate_temperament() {
    // 19 equal divisions: one full octave of 19 steps doubles the frequency.
    let mut g = FreqGenerator::new(0, 19);
    let mut last: u32 = 0;
    for _ in 0..19 {
        last = g.next();
    }
    assert_eq!(last, 19);
    let f: f64 = 27.5f64 * 2f64.powf(last as f64 / 19f64);
    assert_eq!(55f64, f.round());
}

#[test]
fn tonic_opens_the_scale() {
    // The first degree of a from_key stream names the key's pitch class.
    let mut a = ScaleGenerator::from_key(Key::new(Mode::A, false), Mode::A);
    assert_eq!(a.next() % 12, 0);
    let mut c = ScaleGenerator::from_key(Key::new(Mode::C, false), Mode::A);
    assert_eq!(c.next(), 3);
    let mut g_sharp = ScaleGenerator::from_key(Key::new(Mode::G, true), Mode::A);
    assert_eq!(g_sharp.next(), 11);
    let mut dorian = ScaleGenerator::from_key(Key::new(Mode::D, false), Mode::B);
    assert_eq!(dorian.next() % 12, 5);
}

#[test]
fn from_usize_rejects_out_of_range() {
    assert_eq!(Mode::from_usize(7), None);
    assert_eq!(Mode::from_usize(100), None);
}

#[test]
fn from_usize_round_trip() {
    for mode in MODES {
        assert_eq!(Mode::from_usize(mode.to_usize()), Some(mode));
    }
}

#[test]
fn tonic_table() {
    let offsets: Vec<usize> = MODES.iter().map(|m| m.to_skip()).collect();
    assert_eq!(offsets, vec![0, 2, 3, 5, 7, 8, 10]);
}

#[test]
fn key_semitones() {
    assert_eq!(Key::new(Mode::G, true).semitones(), 11);
    assert_eq!(Key::new(Mode::E, false).semitones(), 7);
    assert_eq!(Key::default().semitones(), 0);
}

#[test]
fn interval_pattern_cycles() {
    let one_turn: Vec<u32> = (0u32..7).map(interval).collect();
    assert_eq!(one_turn, vec![2, 2, 1, 2, 2, 2, 1]);
    for i in 0u32..21 {
        assert_eq!(interval(i), interval(i + 7));
    }
}

#[test]
fn tone_stream_skip_matches_stepping() {
    let mut skipped = FreqGenerator::new(0, 12).skip(3);
    let mut stepped = FreqGenerator::new(0, 12);
    stepped.next();
    stepped.next();
    stepped.next();
    assert_eq!(skipped.position(), stepped.position());
    assert_eq!(skipped.next(), stepped.next());
    assert_eq!(skipped.tone_count(), 12);
}
