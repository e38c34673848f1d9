use rusty_tuner::notes::{
    decimal_string, flat_note_name, midi_class_and_octave, note_from_semitones, note_name,
    semitones, sharp_note_index,
};

#[test]
fn a4_is_note_a_in_octave_four() {
    let note = note_from_semitones(0);
    assert_eq!(note.name, "A");
    assert_eq!(note.octave, 4);
    assert_eq!(note.note_index, 9);
    assert_eq!(note.semitones_from_a4, 0);
}

#[test]
fn low_e_string_is_e2() {
    // 82.41 Hz is 29 half steps below A4.
    let note = note_from_semitones(-29);
    assert_eq!(note.name, "E");
    assert_eq!(note.octave, 2);
}

#[test]
fn b_string_is_b3() {
    // 246.94 Hz is 10 half steps below A4.
    let note = note_from_semitones(-10);
    assert_eq!(note.name, "B");
    assert_eq!(note.octave, 3);
}

#[test]
fn octave_changes_at_c() {
    let b3 = note_from_semitones(-10);
    let c4 = note_from_semitones(-9);
    assert_eq!((b3.name, b3.octave), ("B", 3));
    assert_eq!((c4.name, c4.octave), ("C", 4));
    let c_sharp_5 = note_from_semitones(4);
    assert_eq!((c_sharp_5.name, c_sharp_5.octave), ("C#", 5));
}

#[test]
fn octave_up_keeps_the_name() {
    for s in -60..60 {
        let low = note_from_semitones(s);
        let high = note_from_semitones(s + 12);
        assert_eq!(low.name, high.name);
        assert_eq!(low.octave + 1, high.octave);
    }
}

#[test]
fn notes_below_midi_zero_use_truncating_division() {
    // MIDI -1: pitch class B, octave -1 / 12 - 1 = -1.
    assert_eq!(midi_class_and_octave(-1), (11, -1));
    // MIDI -12: pitch class C, octave -12 / 12 - 1 = -2.
    assert_eq!(midi_class_and_octave(-12), (0, -2));
    assert_eq!(midi_class_and_octave(0), (0, -1));
    assert_eq!(midi_class_and_octave(69), (9, 4));
    let note = note_from_semitones(-70);
    assert_eq!((note.name, note.octave), ("B", -1));
}

#[test]
fn semitones_from_names() {
    assert_eq!(semitones("A", 4), 0);
    assert_eq!(semitones("E", 2), -29);
    assert_eq!(semitones("C#", 2), -32);
    assert_eq!(semitones("C", 2), -33);
    assert_eq!(semitones("F#", 3), -15);
    assert_eq!(semitones("B", 3), -10);
}

#[test]
fn name_lookup() {
    assert_eq!(sharp_note_index("C"), Some(0));
    assert_eq!(sharp_note_index("A#"), Some(10));
    assert_eq!(sharp_note_index("B"), Some(11));
    assert_eq!(sharp_note_index("E#"), None);
    assert_eq!(sharp_note_index("Db"), None);
    assert_eq!(sharp_note_index("H"), None);
    assert_eq!(sharp_note_index(""), None);
    assert_eq!(sharp_note_index("C#4"), None);
}

#[test]
fn name_tables() {
    let sharp: Vec<&str> = (0..12).map(note_name).collect();
    assert_eq!(sharp, vec!["C", "C#", "D", "D#", "E", "F", "F#", "G", "G#", "A", "A#", "B"]);
    let flat: Vec<&str> = (0..12).map(flat_note_name).collect();
    assert_eq!(flat, vec!["C", "Db", "D", "Eb", "E", "F", "Gb", "G", "Ab", "A", "Bb", "B"]);
}

#[test]
fn decimal_formatting() {
    assert_eq!(decimal_string(0), "0");
    assert_eq!(decimal_string(7), "7");
    assert_eq!(decimal_string(42), "42");
    assert_eq!(decimal_string(-1), "-1");
    assert_eq!(decimal_string(1000), "1000");
    assert_eq!(decimal_string(i32::MAX), i32::MAX.to_string());
    assert_eq!(decimal_string(i32::MIN), i32::MIN.to_string());
}
