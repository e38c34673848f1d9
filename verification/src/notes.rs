//! Note names, MIDI numbers and the spelling of pitches.
//!
//! Pitches are counted in equal-tempered semitones away from A4, which is
//! MIDI note 69. A pitch's name is its pitch class (sharp or flat spelling)
//! followed by its octave number.
use vstd::prelude::*;
use vstd::string::*;

verus! {

/// Rust's `/` on integers: the quotient rounded toward zero.
pub open spec fn trunc_div(a: int, b: int) -> int
    recommends
        b > 0,
{
    if a >= 0 {
        a / b
    } else {
        -((-a) / b)
    }
}

/// The MIDI number of the note `semitones` half steps away from A4 (MIDI 69).
pub open spec fn midi_of(semitones: int) -> int {
    69 + semitones
}

/// Index of a MIDI note's pitch class in the chromatic scale starting at C.
pub open spec fn pitch_class(midi: int) -> int {
    midi % 12
}

/// Octave number of a MIDI note, as the tuner computes it: `midi / 12 - 1`
/// with Rust's division, so MIDI 0..=11 is octave -1 (and so are -1..=-11).
pub open spec fn octave_of(midi: int) -> int {
    trunc_div(midi, 12) - 1
}

/// Sharp spelling of the pitch class `i` (0 = C, ..., 11 = B).
pub open spec fn sharp_name(i: int) -> Seq<char> {
    if i == 0 {
        seq!['C']
    } else if i == 1 {
        seq!['C', '#']
    } else if i == 2 {
        seq!['D']
    } else if i == 3 {
        seq!['D', '#']
    } else if i == 4 {
        seq!['E']
    } else if i == 5 {
        seq!['F']
    } else if i == 6 {
        seq!['F', '#']
    } else if i == 7 {
        seq!['G']
    } else if i == 8 {
        seq!['G', '#']
    } else if i == 9 {
        seq!['A']
    } else if i == 10 {
        seq!['A', '#']
    } else {
        seq!['B']
    }
}

/// Flat spelling of the pitch class `i` (0 = C, ..., 11 = B).
pub open spec fn flat_name(i: int) -> Seq<char> {
    if i == 0 {
        seq!['C']
    } else if i == 1 {
        seq!['D', 'b']
    } else if i == 2 {
        seq!['D']
    } else if i == 3 {
        seq!['E', 'b']
    } else if i == 4 {
        seq!['E']
    } else if i == 5 {
        seq!['F']
    } else if i == 6 {
        seq!['G', 'b']
    } else if i == 7 {
        seq!['G']
    } else if i == 8 {
        seq!['A', 'b']
    } else if i == 9 {
        seq!['A']
    } else if i == 10 {
        seq!['B', 'b']
    } else {
        seq!['B']
    }
}

/// The decimal digit `d` (0..=9) as a character.
pub open spec fn digit_char(d: int) -> char {
    if d == 0 {
        '0'
    } else if d == 1 {
        '1'
    } else if d == 2 {
        '2'
    } else if d == 3 {
        '3'
    } else if d == 4 {
        '4'
    } else if d == 5 {
        '5'
    } else if d == 6 {
        '6'
    } else if d == 7 {
        '7'
    } else if d == 8 {
        '8'
    } else {
        '9'
    }
}

/// Decimal notation of a natural number, without leading zeros.
pub open spec fn decimal_nat(n: nat) -> Seq<char>
    decreases n,
{
    if n < 10 {
        seq![digit_char(n as int)]
    } else {
        decimal_nat(n / 10).push(digit_char((n % 10) as int))
    }
}

/// Decimal notation of an integer, as Rust's `Display` writes it.
pub open spec fn decimal(n: int) -> Seq<char> {
    if n < 0 {
        seq!['-'] + decimal_nat((-n) as nat)
    } else {
        decimal_nat(n as nat)
    }
}

/// Name of the pitch `semitones` half steps from A4, with the sharp spelling
/// ("A4", "C#3", "E2").
pub open spec fn sharp_pitch_name(semitones: int) -> Seq<char> {
    sharp_name(pitch_class(midi_of(semitones))) + decimal(octave_of(midi_of(semitones)))
}

/// Name of the pitch `semitones` half steps from A4, with the flat spelling
/// ("A4", "Db3", "E2").
pub open spec fn flat_pitch_name(semitones: int) -> Seq<char> {
    flat_name(pitch_class(midi_of(semitones))) + decimal(octave_of(midi_of(semitones)))
}

/// Half steps from A4 of the note with pitch class `class` in `octave`.
pub open spec fn semitones_of(class: int, octave: int) -> int {
    (octave + 1) * 12 + class - 69
}

/// The sharp spelling of pitch class `index`.
pub fn note_name(index: usize) -> (name: &'static str)
    requires
        index < 12,
    ensures
        name@ == sharp_name(index as int),
{
    match index {
        0 => {
            proof { reveal_strlit("C"); }
            "C"
        },
        1 => {
            proof { reveal_strlit("C#"); }
            "C#"
        },
        2 => {
            proof { reveal_strlit("D"); }
            "D"
        },
        3 => {
            proof { reveal_strlit("D#"); }
            "D#"
        },
        4 => {
            proof { reveal_strlit("E"); }
            "E"
        },
        5 => {
            proof { reveal_strlit("F"); }
            "F"
        },
        6 => {
            proof { reveal_strlit("F#"); }
            "F#"
        },
        7 => {
            proof { reveal_strlit("G"); }
            "G"
        },
        8 => {
            proof { reveal_strlit("G#"); }
            "G#"
        },
        9 => {
            proof { reveal_strlit("A"); }
            "A"
        },
        10 => {
            proof { reveal_strlit("A#"); }
            "A#"
        },
        _ => {
            proof { reveal_strlit("B"); }
            "B"
        },
    }
}

/// The flat spelling of pitch class `index`, used for down-tuned strings.
pub fn flat_note_name(index: usize) -> (name: &'static str)
    requires
        index < 12,
    ensures
        name@ == flat_name(index as int),
{
    match index {
        0 => {
            proof { reveal_strlit("C"); }
            "C"
        },
        1 => {
            proof { reveal_strlit("Db"); }
            "Db"
        },
        2 => {
            proof { reveal_strlit("D"); }
            "D"
        },
        3 => {
            proof { reveal_strlit("Eb"); }
            "Eb"
        },
        4 => {
            proof { reveal_strlit("E"); }
            "E"
        },
        5 => {
            proof { reveal_strlit("F"); }
            "F"
        },
        6 => {
            proof { reveal_strlit("Gb"); }
            "Gb"
        },
        7 => {
            proof { reveal_strlit("G"); }
            "G"
        },
        8 => {
            proof { reveal_strlit("Ab"); }
            "Ab"
        },
        9 => {
            proof { reveal_strlit("A"); }
            "A"
        },
        10 => {
            proof { reveal_strlit("Bb"); }
            "Bb"
        },
        _ => {
            proof { reveal_strlit("B"); }
            "B"
        },
    }
}

/// Pitch class and octave of a MIDI note: `((midi % 12) + 12) % 12` and
/// `midi / 12 - 1`.
pub fn midi_class_and_octave(midi: i32) -> (r: (usize, i32))
    ensures
        r.0 as int == pitch_class(midi as int),
        r.1 as int == octave_of(midi as int),
        r.0 < 12,
{
    let class = ((midi % 12) + 12) % 12;
    let octave = (midi / 12) - 1;
    (class as usize, octave)
}

/// The decimal digit `d` as a one-character string.
fn digit_str(d: u32) -> (s: &'static str)
    requires
        d < 10,
    ensures
        s@ == seq![digit_char(d as int)],
{
    match d {
        0 => {
            proof { reveal_strlit("0"); }
            "0"
        },
        1 => {
            proof { reveal_strlit("1"); }
            "1"
        },
        2 => {
            proof { reveal_strlit("2"); }
            "2"
        },
        3 => {
            proof { reveal_strlit("3"); }
            "3"
        },
        4 => {
            proof { reveal_strlit("4"); }
            "4"
        },
        5 => {
            proof { reveal_strlit("5"); }
            "5"
        },
        6 => {
            proof { reveal_strlit("6"); }
            "6"
        },
        7 => {
            proof { reveal_strlit("7"); }
            "7"
        },
        8 => {
            proof { reveal_strlit("8"); }
            "8"
        },
        _ => {
            proof { reveal_strlit("9"); }
            "9"
        },
    }
}

/// Decimal notation of a natural number.
fn decimal_nat_string(n: u32) -> (s: String)
    ensures
        s@ == decimal_nat(n as nat),
    decreases n,
{
    if n < 10 {
        String::from_str(digit_str(n))
    } else {
        let mut s = decimal_nat_string(n / 10);
        s.append(digit_str(n % 10));
        s
    }
}

/// Decimal notation of an integer, as `format!("{}", n)` writes it.
pub fn decimal_string(n: i32) -> (s: String)
    ensures
        s@ == decimal(n as int),
{
    if n < 0 {
        proof { reveal_strlit("-"); }
        let magnitude: u32 = if n == i32::MIN {
            2147483648u32
        } else {
            (-n) as u32
        };
        let digits = decimal_nat_string(magnitude);
        let s = String::from_str("-");
        s.concat(digits.as_str())
    } else {
        decimal_nat_string(n as u32)
    }
}

/// The note that is `semitones_from_a4` half steps from A4: its sharp name,
/// its octave and its pitch class.
#[derive(Debug, Clone)]
pub struct NoteInfo {
    pub name: &'static str,
    pub octave: i32,
    pub note_index: usize,
    pub semitones_from_a4: i32,
}

/// Name and octave of the note `nearest_semitone` half steps from A4 (A4 is
/// MIDI 69: note index 9, octave 4).
pub fn note_from_semitones(nearest_semitone: i32) -> (info: NoteInfo)
    requires
        nearest_semitone + 69 <= i32::MAX,
    ensures
        info.note_index as int == pitch_class(midi_of(nearest_semitone as int)),
        info.octave as int == octave_of(midi_of(nearest_semitone as int)),
        info.name@ == sharp_name(info.note_index as int),
        info.semitones_from_a4 == nearest_semitone,
        info.note_index < 12,
{
    let midi = 69 + nearest_semitone;
    let (note_index, octave) = midi_class_and_octave(midi);
    NoteInfo { name: note_name(note_index), octave, note_index, semitones_from_a4: nearest_semitone }
}

/// Whether `s` is one of the twelve sharp names.
pub open spec fn is_sharp_name(s: Seq<char>) -> bool {
    0 <= sharp_key(s) < 12 && sharp_name(sharp_key(s)) == s
}

/// Pitch class of a note written with its sharp name, or `None` when `note`
/// is none of the twelve sharp names.
pub fn sharp_note_index(note: &str) -> (r: Option<usize>)
    ensures
        r is Some <==> is_sharp_name(note@),
        r matches Some(i) ==> i as int == sharp_key(note@) && i < 12,
{
    let len = note.unicode_len();
    if len == 0 || len > 2 {
        proof { lemma_sharp_name_len(note@); }
        return None;
    }
    let letter = note.get_char(0);
    let natural: usize = if letter == 'C' {
        0
    } else if letter == 'D' {
        2
    } else if letter == 'E' {
        4
    } else if letter == 'F' {
        5
    } else if letter == 'G' {
        7
    } else if letter == 'A' {
        9
    } else if letter == 'B' {
        11
    } else {
        return None;
    };
    if len == 1 {
        proof {
            assert(note@ =~= seq![letter]);
        }
        return Some(natural);
    }
    let accidental = note.get_char(1);
    if accidental == '#' && natural != 4 && natural != 11 {
        proof {
            assert(note@ =~= seq![letter, '#']);
        }
        Some(natural + 1)
    } else {
        None
    }
}

proof fn lemma_sharp_name_len(s: Seq<char>)
    requires
        s.len() == 0 || s.len() > 2,
    ensures
        !is_sharp_name(s),
{
    if 0 <= sharp_key(s) < 12 {
        let k = sharp_key(s);
        assert(sharp_name(k).len() == 1 || sharp_name(k).len() == 2);
    }
}

/// Half steps from A4 of `note` (a sharp name) in `octave`.
pub fn semitones(note: &str, octave: i32) -> (s: i32)
    requires
        is_sharp_name(note@),
        (octave + 1) * 12 + sharp_key(note@) <= i32::MAX,
        semitones_of(sharp_key(note@), octave as int) >= i32::MIN,
    ensures
        s == semitones_of(sharp_key(note@), octave as int),
{
    let note_index = match sharp_note_index(note) {
        Some(i) => i,
        None => 0,
    };
    let midi = (octave + 1) * 12 + note_index as i32;
    midi - 69
}

/// Value of a natural note letter in semitones above C.
pub open spec fn letter_value(c: char) -> int {
    if c == 'C' {
        0
    } else if c == 'D' {
        2
    } else if c == 'E' {
        4
    } else if c == 'F' {
        5
    } else if c == 'G' {
        7
    } else if c == 'A' {
        9
    } else {
        11
    }
}

/// Reads a sharp name back as its pitch class.
pub open spec fn sharp_key(s: Seq<char>) -> int {
    if s.len() == 1 {
        letter_value(s[0])
    } else {
        letter_value(s[0]) + 1
    }
}

proof fn lemma_sharp_key(i: int)
    requires
        0 <= i < 12,
    ensures
        sharp_key(sharp_name(i)) == i,
{
}

/// The twelve sharp names are pairwise different.
pub proof fn lemma_sharp_names_distinct(i: int, j: int)
    requires
        0 <= i < 12,
        0 <= j < 12,
        sharp_name(i) == sharp_name(j),
    ensures
        i == j,
{
    lemma_sharp_key(i);
    lemma_sharp_key(j);
}

/// An octave up is the same note name one octave higher (for notes from
/// MIDI 0 up; below MIDI 0 the octave number follows Rust's division, which
/// rounds toward zero).
pub proof fn law_octave_up(semitones: int)
    ensures
        pitch_class(midi_of(semitones + 12)) == pitch_class(midi_of(semitones)),
        0 <= pitch_class(midi_of(semitones)) < 12,
        midi_of(semitones) >= 0 ==> octave_of(midi_of(semitones + 12)) == octave_of(
            midi_of(semitones),
        ) + 1,
{
    let m = midi_of(semitones);
    assert(midi_of(semitones + 12) == m + 12);
    vstd::arithmetic::div_mod::lemma_mod_add_multiples_vanish(m, 12);
    if m >= 0 {
        vstd::arithmetic::div_mod::lemma_div_plus_one(m, 12);
    }
}

/// Naming a note and reading its pitch back agree: the note of pitch class
/// `class` in `octave` (from octave -1 up) is `semitones_of(class, octave)`
/// half steps from A4, and that pitch is named with the same class and
/// octave.
pub proof fn law_name_and_pitch_round_trip(class: int, octave: int)
    requires
        0 <= class < 12,
        octave >= -1,
    ensures
        pitch_class(midi_of(semitones_of(class, octave))) == class,
        octave_of(midi_of(semitones_of(class, octave))) == octave,
{
    let m = midi_of(semitones_of(class, octave));
    assert(m == 12 * (octave + 1) + class);
    vstd::arithmetic::div_mod::lemma_fundamental_div_mod_converse(m, 12, octave + 1, class);
}

/// Conversely every pitch from MIDI 0 up is `semitones_of` its class and
/// octave.
pub proof fn law_pitch_is_class_and_octave(semitones: int)
    requires
        midi_of(semitones) >= 0,
    ensures
        semitones_of(pitch_class(midi_of(semitones)), octave_of(midi_of(semitones))) == semitones,
{
    let m = midi_of(semitones);
    vstd::arithmetic::div_mod::lemma_fundamental_div_mod(m, 12);
}

} // verus!
