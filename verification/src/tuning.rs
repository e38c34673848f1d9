//! Guitar tunings: each string is a target pitch, in half steps from A4.
use vstd::prelude::*;
use vstd::string::*;
use crate::notes::{
    decimal_string, flat_note_name, flat_pitch_name, midi_class_and_octave, semitones,
    sharp_pitch_name,
};

verus! {

/// A target string: its display name and its pitch in half steps from A4.
#[derive(Debug, Clone)]
pub struct StringTarget {
    pub name: String,
    pub semitones_from_a4: i32,
}

impl View for StringTarget {
    type V = (Seq<char>, int);

    open spec fn view(&self) -> (Seq<char>, int) {
        (self.name@, self.semitones_from_a4 as int)
    }
}

/// A named tuning: its strings from the lowest (the 6th string) up.
#[derive(Debug, Clone)]
pub struct Tuning {
    pub name: &'static str,
    pub strings: Vec<StringTarget>,
}

impl View for Tuning {
    type V = (Seq<char>, Seq<(Seq<char>, int)>);

    open spec fn view(&self) -> (Seq<char>, Seq<(Seq<char>, int)>) {
        (self.name@, Seq::new(self.strings@.len(), |i: int| self.strings@[i]@))
    }
}

/// Strings at the given pitches, named with sharp spellings.
pub open spec fn sharp_strings(semis: Seq<int>) -> Seq<(Seq<char>, int)> {
    Seq::new(semis.len(), |i: int| (sharp_pitch_name(semis[i]), semis[i]))
}

/// Strings at the given pitches, named with flat spellings.
pub open spec fn flat_strings(semis: Seq<int>) -> Seq<(Seq<char>, int)> {
    Seq::new(semis.len(), |i: int| (flat_pitch_name(semis[i]), semis[i]))
}

/// Every pitch moved by `half_steps`.
pub open spec fn shifted(semis: Seq<int>, half_steps: int) -> Seq<int> {
    Seq::new(semis.len(), |i: int| semis[i] + half_steps)
}

/// E2 A2 D3 G3 B3 E4.
pub open spec fn standard_pitches() -> Seq<int> {
    seq![-29, -24, -19, -14, -10, -5]
}
/// D2 A2 D3 G3 B3 E4.
pub open spec fn drop_d_pitches() -> Seq<int> {
    seq![-31, -24, -19, -14, -10, -5]
}
/// D2 G2 D3 G3 B3 D4.
pub open spec fn open_g_pitches() -> Seq<int> {
    seq![-31, -26, -19, -14, -10, -7]
}
/// D2 A2 D3 F#3 A3 D4.
pub open spec fn open_d_pitches() -> Seq<int> {
    seq![-31, -24, -19, -15, -12, -7]
}
/// D2 A2 D3 G3 A3 D4.
pub open spec fn dadgad_pitches() -> Seq<int> {
    seq![-31, -24, -19, -14, -12, -7]
}
fn target(name: &str, semitones_from_a4: i32) -> (t: StringTarget)
    ensures
        t@ == (name@, semitones_from_a4 as int),
{
    StringTarget { name: String::from_str(name), semitones_from_a4 }
}

/// Standard tuning, E2 A2 D3 G3 B3 E4.
pub fn standard_tuning() -> (t: Tuning)
    ensures
        t@ == ("Standard"@, sharp_strings(standard_pitches())),
{
    proof {
        reveal_strlit("A");
        reveal_strlit("B");
        reveal_strlit("D");
        reveal_strlit("E");
        reveal_strlit("G");
        reveal_strlit("E2");
        reveal_strlit("A2");
        reveal_strlit("D3");
        reveal_strlit("G3");
        reveal_strlit("B3");
        reveal_strlit("E4");
        assert("A"@ =~= seq!['A']);
        assert("B"@ =~= seq!['B']);
        assert("D"@ =~= seq!['D']);
        assert("E"@ =~= seq!['E']);
        assert("G"@ =~= seq!['G']);
    }
    let mut strings: Vec<StringTarget> = Vec::new();
    strings.push(target("E2", semitones("E", 2)));
    strings.push(target("A2", semitones("A", 2)));
    strings.push(target("D3", semitones("D", 3)));
    strings.push(target("G3", semitones("G", 3)));
    strings.push(target("B3", semitones("B", 3)));
    strings.push(target("E4", semitones("E", 4)));
    let t = Tuning { name: "Standard", strings };
    proof {
        assert(sharp_pitch_name(-29) =~= "E2"@);
        assert(sharp_pitch_name(-24) =~= "A2"@);
        assert(sharp_pitch_name(-19) =~= "D3"@);
        assert(sharp_pitch_name(-14) =~= "G3"@);
        assert(sharp_pitch_name(-10) =~= "B3"@);
        assert(sharp_pitch_name(-5) =~= "E4"@);
        assert(t@.1 =~= sharp_strings(standard_pitches()));
    }
    t
}

/// Drop D tuning, D2 A2 D3 G3 B3 E4.
pub fn drop_d_tuning() -> (t: Tuning)
    ensures
        t@ == ("Drop D"@, sharp_strings(drop_d_pitches())),
{
    proof {
        reveal_strlit("A");
        reveal_strlit("B");
        reveal_strlit("D");
        reveal_strlit("E");
        reveal_strlit("G");
        reveal_strlit("D2");
        reveal_strlit("A2");
        reveal_strlit("D3");
        reveal_strlit("G3");
        reveal_strlit("B3");
        reveal_strlit("E4");
        assert("A"@ =~= seq!['A']);
        assert("B"@ =~= seq!['B']);
        assert("D"@ =~= seq!['D']);
        assert("E"@ =~= seq!['E']);
        assert("G"@ =~= seq!['G']);
    }
    let mut strings: Vec<StringTarget> = Vec::new();
    strings.push(target("D2", semitones("D", 2)));
    strings.push(target("A2", semitones("A", 2)));
    strings.push(target("D3", semitones("D", 3)));
    strings.push(target("G3", semitones("G", 3)));
    strings.push(target("B3", semitones("B", 3)));
    strings.push(target("E4", semitones("E", 4)));
    let t = Tuning { name: "Drop D", strings };
    proof {
        assert(sharp_pitch_name(-31) =~= "D2"@);
        assert(sharp_pitch_name(-24) =~= "A2"@);
        assert(sharp_pitch_name(-19) =~= "D3"@);
        assert(sharp_pitch_name(-14) =~= "G3"@);
        assert(sharp_pitch_name(-10) =~= "B3"@);
        assert(sharp_pitch_name(-5) =~= "E4"@);
        assert(t@.1 =~= sharp_strings(drop_d_pitches()));
    }
    t
}

/// Open G tuning, D2 G2 D3 G3 B3 D4.
pub fn open_g_tuning() -> (t: Tuning)
    ensures
        t@ == ("Open G"@, sharp_strings(open_g_pitches())),
{
    proof {
        reveal_strlit("B");
        reveal_strlit("D");
        reveal_strlit("G");
        reveal_strlit("D2");
        reveal_strlit("G2");
        reveal_strlit("D3");
        reveal_strlit("G3");
        reveal_strlit("B3");
        reveal_strlit("D4");
        assert("B"@ =~= seq!['B']);
        assert("D"@ =~= seq!['D']);
        assert("G"@ =~= seq!['G']);
    }
    let mut strings: Vec<StringTarget> = Vec::new();
    strings.push(target("D2", semitones("D", 2)));
    strings.push(target("G2", semitones("G", 2)));
    strings.push(target("D3", semitones("D", 3)));
    strings.push(target("G3", semitones("G", 3)));
    strings.push(target("B3", semitones("B", 3)));
    strings.push(target("D4", semitones("D", 4)));
    let t = Tuning { name: "Open G", strings };
    proof {
        assert(sharp_pitch_name(-31) =~= "D2"@);
        assert(sharp_pitch_name(-26) =~= "G2"@);
        assert(sharp_pitch_name(-19) =~= "D3"@);
        assert(sharp_pitch_name(-14) =~= "G3"@);
        assert(sharp_pitch_name(-10) =~= "B3"@);
        assert(sharp_pitch_name(-7) =~= "D4"@);
        assert(t@.1 =~= sharp_strings(open_g_pitches()));
    }
    t
}

/// Open D tuning, D2 A2 D3 F#3 A3 D4.
pub fn open_d_tuning() -> (t: Tuning)
    ensures
        t@ == ("Open D"@, sharp_strings(open_d_pitches())),
{
    proof {
        reveal_strlit("A");
        reveal_strlit("D");
        reveal_strlit("F#");
        reveal_strlit("D2");
        reveal_strlit("A2");
        reveal_strlit("D3");
        reveal_strlit("F#3");
        reveal_strlit("A3");
        reveal_strlit("D4");
        assert("A"@ =~= seq!['A']);
        assert("D"@ =~= seq!['D']);
        assert("F#"@ =~= seq!['F', '#']);
    }
    let mut strings: Vec<StringTarget> = Vec::new();
    strings.push(target("D2", semitones("D", 2)));
    strings.push(target("A2", semitones("A", 2)));
    strings.push(target("D3", semitones("D", 3)));
    strings.push(target("F#3", semitones("F#", 3)));
    strings.push(target("A3", semitones("A", 3)));
    strings.push(target("D4", semitones("D", 4)));
    let t = Tuning { name: "Open D", strings };
    proof {
        assert(sharp_pitch_name(-31) =~= "D2"@);
        assert(sharp_pitch_name(-24) =~= "A2"@);
        assert(sharp_pitch_name(-19) =~= "D3"@);
        assert(sharp_pitch_name(-15) =~= "F#3"@);
        assert(sharp_pitch_name(-12) =~= "A3"@);
        assert(sharp_pitch_name(-7) =~= "D4"@);
        assert(t@.1 =~= sharp_strings(open_d_pitches()));
    }
    t
}

/// DADGAD tuning, D2 A2 D3 G3 A3 D4.
pub fn dadgad_tuning() -> (t: Tuning)
    ensures
        t@ == ("DADGAD"@, sharp_strings(dadgad_pitches())),
{
    proof {
        reveal_strlit("A");
        reveal_strlit("D");
        reveal_strlit("G");
        reveal_strlit("D2");
        reveal_strlit("A2");
        reveal_strlit("D3");
        reveal_strlit("G3");
        reveal_strlit("A3");
        reveal_strlit("D4");
        assert("A"@ =~= seq!['A']);
        assert("D"@ =~= seq!['D']);
        assert("G"@ =~= seq!['G']);
    }
    let mut strings: Vec<StringTarget> = Vec::new();
    strings.push(target("D2", semitones("D", 2)));
    strings.push(target("A2", semitones("A", 2)));
    strings.push(target("D3", semitones("D", 3)));
    strings.push(target("G3", semitones("G", 3)));
    strings.push(target("A3", semitones("A", 3)));
    strings.push(target("D4", semitones("D", 4)));
    let t = Tuning { name: "DADGAD", strings };
    proof {
        assert(sharp_pitch_name(-31) =~= "D2"@);
        assert(sharp_pitch_name(-24) =~= "A2"@);
        assert(sharp_pitch_name(-19) =~= "D3"@);
        assert(sharp_pitch_name(-14) =~= "G3"@);
        assert(sharp_pitch_name(-12) =~= "A3"@);
        assert(sharp_pitch_name(-7) =~= "D4"@);
        assert(t@.1 =~= sharp_strings(dadgad_pitches()));
    }
    t
}

/// The pitches of a list of strings.
pub open spec fn pitches(strings: Seq<(Seq<char>, int)>) -> Seq<int> {
    Seq::new(strings.len(), |i: int| strings[i].1)
}

/// Name of the pitch `semitones` from A4 with the flat spelling, as a string.
pub fn flat_pitch_string(semitones_from_a4: i32) -> (name: String)
    requires
        semitones_from_a4 + 69 <= i32::MAX,
    ensures
        name@ == flat_pitch_name(semitones_from_a4 as int),
{
    let midi = 69 + semitones_from_a4;
    let (note_idx, octave) = midi_class_and_octave(midi);
    let display = String::from_str(flat_note_name(note_idx));
    let octave_text = decimal_string(octave);
    display.concat(octave_text.as_str())
}

/// A tuning whose every string is `base`'s moved down by `half_steps`
/// semitones, named with flat spellings as is usual for down-tuned guitars.
pub fn shift_tuning(base: &Tuning, half_steps: i32, name: &'static str) -> (t: Tuning)
    requires
        forall|i: int|
            0 <= i < base.strings@.len() ==> i32::MIN <= #[trigger] base.strings@[i].semitones_from_a4
                - half_steps && base.strings@[i].semitones_from_a4 - half_steps + 69 <= i32::MAX,
    ensures
        t@ == (name@, flat_strings(shifted(pitches(base@.1), -half_steps))),
{
    let mut strings: Vec<StringTarget> = Vec::new();
    let n = base.strings.len();
    for i in 0..n
        invariant
            n == base.strings@.len(),
            forall|j: int|
                0 <= j < base.strings@.len() ==> i32::MIN <= #[trigger] base.strings@[j].semitones_from_a4
                    - half_steps && base.strings@[j].semitones_from_a4 - half_steps + 69 <= i32::MAX,
            strings@.len() == i,
            forall|j: int|
                0 <= j < i ==> (#[trigger] strings@[j])@ == (
                    flat_pitch_name(base.strings@[j].semitones_from_a4 - half_steps),
                    base.strings@[j].semitones_from_a4 - half_steps,
                ),
    {
        let new_semitones = base.strings[i].semitones_from_a4 - half_steps;
        let target_name = flat_pitch_string(new_semitones);
        strings.push(StringTarget { name: target_name, semitones_from_a4: new_semitones });
    }
    let t = Tuning { name, strings };
    proof {
        assert(t@.1 =~= flat_strings(shifted(pitches(base@.1), -half_steps)));
    }
    t
}

/// Standard tuning a half step down: Eb2 Ab2 Db3 Gb3 Bb3 Eb4.
pub fn half_step_down_tuning() -> (t: Tuning)
    ensures
        t@ == ("Eb Standard"@, flat_strings(shifted(standard_pitches(), -1))),
{
    let base = standard_tuning();
    proof {
        assert(pitches(base@.1) =~= standard_pitches());
    }
    shift_tuning(&base, 1, "Eb Standard")
}

/// Standard tuning a whole step down: D2 G2 C3 F3 A3 D4.
pub fn whole_step_down_tuning() -> (t: Tuning)
    ensures
        t@ == ("D Standard"@, flat_strings(shifted(standard_pitches(), -2))),
{
    let base = standard_tuning();
    proof {
        assert(pitches(base@.1) =~= standard_pitches());
    }
    shift_tuning(&base, 2, "D Standard")
}

/// Half step down, then the 6th string dropped another whole step:
/// Db2 Ab2 Db3 Gb3 Bb3 Eb4.
pub fn drop_db_tuning() -> (t: Tuning)
    ensures
        t@ == (
            "Drop Db"@,
            flat_strings(shifted(standard_pitches(), -1)).update(0, (flat_pitch_name(-32), -32)),
        ),
{
    let base = standard_tuning();
    proof {
        assert(pitches(base@.1) =~= standard_pitches());
        reveal_strlit("C#");
        reveal_strlit("Db2");
        assert("C#"@ =~= seq!['C', '#']);
        assert(flat_pitch_name(-32) =~= "Db2"@);
    }
    let mut t = shift_tuning(&base, 1, "Drop Db");
    assert(t.strings@.len() == t@.1.len());
    t.strings.set(0, target("Db2", semitones("C#", 2)));
    proof {
        assert(t@.1 =~= flat_strings(shifted(standard_pitches(), -1)).update(0, (flat_pitch_name(-32), -32)));
    }
    t
}

/// Whole step down, then the 6th string dropped another whole step:
/// C2 G2 C3 F3 A3 D4.
pub fn drop_c_tuning() -> (t: Tuning)
    ensures
        t@ == (
            "Drop C"@,
            flat_strings(shifted(standard_pitches(), -2)).update(0, (flat_pitch_name(-33), -33)),
        ),
{
    let base = standard_tuning();
    proof {
        assert(pitches(base@.1) =~= standard_pitches());
        reveal_strlit("C");
        reveal_strlit("C2");
        assert("C"@ =~= seq!['C']);
        assert(flat_pitch_name(-33) =~= "C2"@);
    }
    let mut t = shift_tuning(&base, 2, "Drop C");
    assert(t.strings@.len() == t@.1.len());
    t.strings.set(0, target("C2", semitones("C", 2)));
    proof {
        assert(t@.1 =~= flat_strings(shifted(standard_pitches(), -2)).update(0, (flat_pitch_name(-33), -33)));
    }
    t
}

/// The tunings the tuner offers, in the order of its tuning knob.
pub open spec fn tuning_catalog() -> Seq<(Seq<char>, Seq<(Seq<char>, int)>)> {
    seq![
        ("Standard"@, sharp_strings(standard_pitches())),
        ("Eb Standard"@, flat_strings(shifted(standard_pitches(), -1))),
        ("D Standard"@, flat_strings(shifted(standard_pitches(), -2))),
        ("Drop D"@, sharp_strings(drop_d_pitches())),
        ("Drop Db"@, flat_strings(shifted(standard_pitches(), -1)).update(0, (flat_pitch_name(-32), -32))),
        ("Drop C"@, flat_strings(shifted(standard_pitches(), -2)).update(0, (flat_pitch_name(-33), -33))),
        ("Open G"@, sharp_strings(open_g_pitches())),
        ("Open D"@, sharp_strings(open_d_pitches())),
        ("DADGAD"@, sharp_strings(dadgad_pitches())),
    ]
}

/// Every tuning the tuner offers.
pub fn all_tunings() -> (r: Vec<Tuning>)
    ensures
        r@.len() == tuning_catalog().len(),
        forall|k: int| 0 <= k < r@.len() ==> (#[trigger] r@[k])@ == tuning_catalog()[k],
{
    let mut r: Vec<Tuning> = Vec::new();
    r.push(standard_tuning());
    r.push(half_step_down_tuning());
    r.push(whole_step_down_tuning());
    r.push(drop_d_tuning());
    r.push(drop_db_tuning());
    r.push(drop_c_tuning());
    r.push(open_g_tuning());
    r.push(open_d_tuning());
    r.push(dadgad_tuning());
    proof {
        assert(r@.len() == 9);
    }
    r
}

/// Index of the string whose deviation is smallest; the first such string
/// when several are equally close. The deviations are the absolute cents
/// offsets from each string's target, each given by an integer key that
/// orders as the offset does.
pub fn closest_string_index(deviations: &Vec<u64>) -> (r: usize)
    requires
        deviations@.len() > 0,
    ensures
        r < deviations@.len(),
        forall|j: int| 0 <= j < deviations@.len() ==> deviations@[r as int] <= #[trigger] deviations@[j],
        forall|j: int| 0 <= j < r ==> deviations@[r as int] < #[trigger] deviations@[j],
{
    let mut best: usize = 0;
    let n = deviations.len();
    for i in 1..n
        invariant
            n == deviations@.len(),
            best < i,
            forall|j: int| 0 <= j < i ==> deviations@[best as int] <= #[trigger] deviations@[j],
            forall|j: int| 0 <= j < best ==> deviations@[best as int] < #[trigger] deviations@[j],
    {
        if deviations[i] < deviations[best] {
            best = i;
        }
    }
    best
}

/// Every tuning offered has six strings, and every string's name spells
/// its pitch (with a sharp or a flat spelling).
pub proof fn law_catalog_names_spell_pitches()
    ensures
        tuning_catalog().len() == 9,
        forall|k: int| 0 <= k < 9 ==> (#[trigger] tuning_catalog()[k]).1.len() == 6,
        forall|k: int, j: int|
            0 <= k < 9 && 0 <= j < 6 ==> {
                let s = #[trigger] tuning_catalog()[k].1[j];
                s.0 == sharp_pitch_name(s.1) || s.0 == flat_pitch_name(s.1)
            },
{
    assert forall|k: int, j: int| 0 <= k < 9 && 0 <= j < 6 implies {
        let s = #[trigger] tuning_catalog()[k].1[j];
        s.0 == sharp_pitch_name(s.1) || s.0 == flat_pitch_name(s.1)
    } by {}
}

/// The down-tuned variants are standard tuning moved down a half step and
/// a whole step; each "drop" tuning lowers its base's 6th string by a whole
/// step and leaves the other strings alone.
pub proof fn law_tuning_relations()
    ensures
        pitches(tuning_catalog()[1].1) == shifted(standard_pitches(), -1),
        pitches(tuning_catalog()[2].1) == shifted(standard_pitches(), -2),
        pitches(tuning_catalog()[3].1) == pitches(tuning_catalog()[0].1).update(
            0,
            pitches(tuning_catalog()[0].1)[0] - 2,
        ),
        pitches(tuning_catalog()[4].1) == pitches(tuning_catalog()[1].1).update(
            0,
            pitches(tuning_catalog()[1].1)[0] - 2,
        ),
        pitches(tuning_catalog()[5].1) == pitches(tuning_catalog()[2].1).update(
            0,
            pitches(tuning_catalog()[2].1)[0] - 2,
        ),
{
    assert(pitches(tuning_catalog()[1].1) =~= shifted(standard_pitches(), -1));
    assert(pitches(tuning_catalog()[2].1) =~= shifted(standard_pitches(), -2));
    assert(pitches(tuning_catalog()[3].1) =~= pitches(tuning_catalog()[0].1).update(
        0,
        pitches(tuning_catalog()[0].1)[0] - 2,
    ));
    assert(pitches(tuning_catalog()[4].1) =~= pitches(tuning_catalog()[1].1).update(
        0,
        pitches(tuning_catalog()[1].1)[0] - 2,
    ));
    assert(pitches(tuning_catalog()[5].1) =~= pitches(tuning_catalog()[2].1).update(
        0,
        pitches(tuning_catalog()[2].1)[0] - 2,
    ));
}

/// Shifting by `a` and then by `b` puts every string where shifting by
/// `a + b` does.
pub proof fn law_shifts_compose(semis: Seq<int>, a: int, b: int)
    ensures
        shifted(shifted(semis, a), b) == shifted(semis, a + b),
{
    assert(shifted(shifted(semis, a), b) =~= shifted(semis, a + b));
}

} // verus!
