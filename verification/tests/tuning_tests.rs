use rusty_tuner::tuning::{
    all_tunings, closest_string_index, flat_pitch_string, dadgad_tuning, drop_c_tuning, drop_d_tuning,
    drop_db_tuning, half_step_down_tuning, open_d_tuning, open_g_tuning, shift_tuning,
    standard_tuning, whole_step_down_tuning, Tuning,
};

fn names(t: &Tuning) -> Vec<&str> {
    t.strings.iter().map(|s| s.name.as_str()).collect()
}

fn pitches(t: &Tuning) -> Vec<i32> {
    t.strings.iter().map(|s| s.semitones_from_a4).collect()
}

#[test]
fn standard_tuning_strings() {
    let t = standard_tuning();
    assert_eq!(t.name, "Standard");
    assert_eq!(names(&t), vec!["E2", "A2", "D3", "G3", "B3", "E4"]);
    assert_eq!(pitches(&t), vec![-29, -24, -19, -14, -10, -5]);
}

#[test]
fn open_and_drop_tunings() {
    let t = drop_d_tuning();
    assert_eq!(t.name, "Drop D");
    assert_eq!(names(&t), vec!["D2", "A2", "D3", "G3", "B3", "E4"]);
    assert_eq!(pitches(&t), vec![-31, -24, -19, -14, -10, -5]);
    let t = open_g_tuning();
    assert_eq!(t.name, "Open G");
    assert_eq!(names(&t), vec!["D2", "G2", "D3", "G3", "B3", "D4"]);
    assert_eq!(pitches(&t), vec![-31, -26, -19, -14, -10, -7]);
    let t = open_d_tuning();
    assert_eq!(t.name, "Open D");
    assert_eq!(names(&t), vec!["D2", "A2", "D3", "F#3", "A3", "D4"]);
    assert_eq!(pitches(&t), vec![-31, -24, -19, -15, -12, -7]);
    let t = dadgad_tuning();
    assert_eq!(t.name, "DADGAD");
    assert_eq!(names(&t), vec!["D2", "A2", "D3", "G3", "A3", "D4"]);
    assert_eq!(pitches(&t), vec![-31, -24, -19, -14, -12, -7]);
}

#[test]
fn down_tuned_variants_use_flat_names() {
    let t = half_step_down_tuning();
    assert_eq!(t.name, "Eb Standard");
    assert_eq!(names(&t), vec!["Eb2", "Ab2", "Db3", "Gb3", "Bb3", "Eb4"]);
    assert_eq!(pitches(&t), vec![-30, -25, -20, -15, -11, -6]);
    let t = whole_step_down_tuning();
    assert_eq!(t.name, "D Standard");
    assert_eq!(names(&t), vec!["D2", "G2", "C3", "F3", "A3", "D4"]);
    assert_eq!(pitches(&t), vec![-31, -26, -21, -16, -12, -7]);
    let t = drop_db_tuning();
    assert_eq!(t.name, "Drop Db");
    assert_eq!(names(&t), vec!["Db2", "Ab2", "Db3", "Gb3", "Bb3", "Eb4"]);
    assert_eq!(pitches(&t), vec![-32, -25, -20, -15, -11, -6]);
    let t = drop_c_tuning();
    assert_eq!(t.name, "Drop C");
    assert_eq!(names(&t), vec!["C2", "G2", "C3", "F3", "A3", "D4"]);
    assert_eq!(pitches(&t), vec![-33, -26, -21, -16, -12, -7]);
}

#[test]
fn shifting_up_spells_with_flats() {
    let t = shift_tuning(&standard_tuning(), 1, "Eb Standard");
    assert_eq!(pitches(&t), vec![-30, -25, -20, -15, -11, -6]);
    // A negative shift down is a shift up.
    let t = shift_tuning(&standard_tuning(), -1, "F Standard");
    assert_eq!(t.name, "F Standard");
    assert_eq!(names(&t), vec!["F2", "Bb2", "Eb3", "Ab3", "C4", "F4"]);
    assert_eq!(pitches(&t), vec![-28, -23, -18, -13, -9, -4]);
    let down = shift_tuning(&t, 1, "Back");
    assert_eq!(pitches(&down), pitches(&standard_tuning()));
}

#[test]
fn catalog_order() {
    let all = all_tunings();
    let order: Vec<&str> = all.iter().map(|t| t.name).collect();
    assert_eq!(
        order,
        vec![
            "Standard",
            "Eb Standard",
            "D Standard",
            "Drop D",
            "Drop Db",
            "Drop C",
            "Open G",
            "Open D",
            "DADGAD"
        ]
    );
    for t in &all {
        assert_eq!(t.strings.len(), 6);
    }
}

#[test]
fn closest_string_picks_smallest_deviation() {
    assert_eq!(closest_string_index(&vec![0]), 0);
    assert_eq!(closest_string_index(&vec![9, 8, 7]), 2);
    assert_eq!(closest_string_index(&vec![7, 3, 9, 5, 4, 8]), 1);
}

#[test]
fn closest_string_takes_the_first_of_equals() {
    assert_eq!(closest_string_index(&vec![5, 3, 3, 7]), 1);
    assert_eq!(closest_string_index(&vec![2, 2]), 0);
}

#[test]
fn closest_string_from_cents() {
    // |cents| of 82.41 Hz against standard tuning at A4 = 440 Hz, ordered by
    // their bit patterns (non-negative floats order as their bits do).
    let tuning = standard_tuning();
    let freq: f64 = 82.41;
    let cents: Vec<f64> = tuning
        .strings
        .iter()
        .map(|s| {
            let target = 440.0 * 2.0_f64.powf(s.semitones_from_a4 as f64 / 12.0);
            (1200.0 * (freq / target).log2()).abs()
        })
        .collect();
    let keys: Vec<u64> = cents.iter().map(|c| c.to_bits()).collect();
    let idx = closest_string_index(&keys);
    assert_eq!(idx, 0);
    assert!(cents[idx] < 1.0);

    let freq: f64 = 110.0;
    let keys: Vec<u64> = tuning
        .strings
        .iter()
        .map(|s| {
            let target = 440.0 * 2.0_f64.powf(s.semitones_from_a4 as f64 / 12.0);
            (1200.0 * (freq / target).log2()).abs().to_bits()
        })
        .collect();
    assert_eq!(closest_string_index(&keys), 1);
}

#[test]
fn flat_pitch_names() {
    assert_eq!(flat_pitch_string(0), "A4");
    assert_eq!(flat_pitch_string(-32), "Db2");
    assert_eq!(flat_pitch_string(-33), "C2");
    assert_eq!(flat_pitch_string(1), "Bb4");
    assert_eq!(flat_pitch_string(-70), "B-1");
    assert_eq!(flat_pitch_string(-81), "C-2");
}
