//! What the tuner's screen shows of the detected pitch, frame by frame.
//!
//! Each frame either detects a pitch or is silent. A new note is shown only
//! after it has been detected in `HYSTERESIS_FRAMES` consecutive frames, so
//! the display does not flicker between neighbours; after
//! `SILENCE_TIMEOUT` silent frames the display is cleared.
use vstd::prelude::*;

verus! {

/// Consecutive frames of a new note required before the display switches to it.
pub const HYSTERESIS_FRAMES: u32 = 5;

/// Silent frames after which the display is cleared.
pub const SILENCE_TIMEOUT: u32 = 20;

/// Silent frames after which the display starts to fade.
pub const FADE_AFTER_FRAMES: u32 = 3;

/// A note as the display shows it: pitch class (0 = C) and octave.
pub type NoteKey = (usize, i32);

/// Integer part of the tuner's display state.
#[derive(Debug, Clone, Copy)]
pub struct NoteDisplay {
    /// The note most recently detected, and for how many consecutive
    /// detections it has been the one detected.
    pub candidate: Option<NoteKey>,
    pub candidate_count: u32,
    /// The note on screen.
    pub displayed: Option<NoteKey>,
    /// Consecutive frames without a detected pitch.
    pub silence_frames: u32,
    /// The string nearest to the last detected pitch.
    pub auto_string: Option<usize>,
}

/// What a silent frame asks of the display.
#[derive(Debug, Clone, Copy, PartialEq, Eq, Structural)]
pub struct SilenceEffect {
    /// Fade the clarity and the needle toward rest.
    pub fade: bool,
    /// Forget the detected pitch: clarity and frequency go to zero.
    pub clear: bool,
}

impl NoteDisplay {
    /// The state after a frame in which `note` was detected, nearest to
    /// `string`.
    pub open spec fn after_detection(self, note: NoteKey, string: usize) -> NoteDisplay {
        let same = self.candidate == Some(note);
        let count: u32 = if same {
            (self.candidate_count + 1) as u32
        } else {
            1
        };
        NoteDisplay {
            candidate: Some(note),
            candidate_count: count,
            displayed: if count >= HYSTERESIS_FRAMES {
                Some(note)
            } else {
                self.displayed
            },
            silence_frames: 0,
            auto_string: Some(string),
        }
    }

    /// Silent frames counted after one more silent frame (the count stops at
    /// `u32::MAX`).
    pub open spec fn silence_after(self) -> u32 {
        if self.silence_frames < u32::MAX {
            (self.silence_frames + 1) as u32
        } else {
            u32::MAX
        }
    }

    /// The state after a silent frame: the pending note is dropped, since
    /// a new note needs `HYSTERESIS_FRAMES` consecutive frames of detection.
    pub open spec fn after_silence(self) -> NoteDisplay {
        let frames = self.silence_after();
        NoteDisplay {
            candidate: None,
            candidate_count: 0,
            silence_frames: frames,
            auto_string: if frames > SILENCE_TIMEOUT {
                None
            } else {
                self.auto_string
            },
            ..self
        }
    }

    /// What a silent frame does, given the silent frames counted after it.
    pub open spec fn silence_effect(frames: u32) -> SilenceEffect {
        SilenceEffect { fade: frames > FADE_AFTER_FRAMES, clear: frames > SILENCE_TIMEOUT }
    }

    /// The display at start-up: nothing shown, and silent for long enough
    /// that nothing is pending.
    pub fn new() -> (d: Self)
        ensures
            d.candidate is None,
            d.candidate_count == 0,
            d.displayed is None,
            d.silence_frames == SILENCE_TIMEOUT,
            d.auto_string is None,
    {
        NoteDisplay {
            candidate: None,
            candidate_count: 0,
            displayed: None,
            silence_frames: SILENCE_TIMEOUT,
            auto_string: None,
        }
    }

    /// A frame in which `note` was detected and `string` is the nearest
    /// string of the tuning.
    pub fn detect(&mut self, note: NoteKey, string: usize)
        requires
            old(self).candidate == Some(note) ==> old(self).candidate_count < u32::MAX,
        ensures
            *final(self) == old(self).after_detection(note, string),
    {
        self.silence_frames = 0;
        self.auto_string = Some(string);
        let same = match self.candidate {
            Some(c) => c.0 == note.0 && c.1 == note.1,
            None => false,
        };
        if same {
            self.candidate_count = self.candidate_count + 1;
        } else {
            self.candidate = Some(note);
            self.candidate_count = 1;
        }
        if self.candidate_count >= HYSTERESIS_FRAMES {
            self.displayed = self.candidate;
        }
    }

    /// A frame without a detected pitch.
    pub fn silence(&mut self) -> (effect: SilenceEffect)
        ensures
            *final(self) == old(self).after_silence(),
            effect == NoteDisplay::silence_effect(final(self).silence_frames),
    {
        self.silence_frames = self.silence_frames.saturating_add(1);
        self.candidate = None;
        self.candidate_count = 0;
        let effect = SilenceEffect {
            fade: self.silence_frames > FADE_AFTER_FRAMES,
            clear: self.silence_frames > SILENCE_TIMEOUT,
        };
        if effect.clear {
            self.auto_string = None;
        }
        effect
    }
}

/// Start of the waveform shown on screen among `len` samples: the last
/// 20 ms (`sample_rate / 50` samples), or all of them when fewer are at hand.
pub fn waveform_start(sample_rate: u32, len: usize) -> (start: usize)
    ensures
        start == len - (if (sample_rate / 50) as int <= len {
            (sample_rate / 50) as int
        } else {
            len as int
        }),
{
    let wanted = (sample_rate / 50) as usize;
    let shown = if wanted < len {
        wanted
    } else {
        len
    };
    len - shown
}

impl NoteDisplay {
    /// The state after consecutive detections of `notes` (the nearest
    /// string does not affect which note is shown, so it is taken as 0).
    pub open spec fn after_detections(self, notes: Seq<NoteKey>) -> NoteDisplay
        decreases notes.len(),
    {
        if notes.len() == 0 {
            self
        } else {
            self.after_detections(notes.drop_last()).after_detection(notes.last(), 0)
        }
    }

    /// The state after `frames`, each a detected note (nearest string taken
    /// as 0) or a silent frame.
    pub open spec fn after_frames(self, frames: Seq<Option<NoteKey>>) -> NoteDisplay
        decreases frames.len(),
    {
        if frames.len() == 0 {
            self
        } else {
            let before = self.after_frames(frames.drop_last());
            match frames.last() {
                Some(note) => before.after_detection(note, 0),
                None => before.after_silence(),
            }
        }
    }

    /// The state after `k` consecutive silent frames.
    pub open spec fn after_silences(self, k: nat) -> NoteDisplay
        decreases k,
    {
        if k == 0 {
            self
        } else {
            self.after_silences((k - 1) as nat).after_silence()
        }
    }

    /// The display at start-up.
    pub open spec fn initial() -> NoteDisplay {
        NoteDisplay {
            candidate: None,
            candidate_count: 0,
            displayed: None,
            silence_frames: SILENCE_TIMEOUT,
            auto_string: None,
        }
    }
}

/// Detecting a note other than the pending candidate never changes what is
/// shown: one stray frame cannot make the display flicker.
pub proof fn law_stray_note_keeps_display(d: NoteDisplay, note: NoteKey, string: usize)
    requires
        d.candidate != Some(note),
    ensures
        d.after_detection(note, string).displayed == d.displayed,
        d.after_detection(note, string).candidate == Some(note),
        d.after_detection(note, string).candidate_count == 1,
{
}

/// A detection changes the display only to the note just detected, once it
/// has been detected `HYSTERESIS_FRAMES` times in a row.
pub proof fn law_display_changes_only_to_confirmed_note(d: NoteDisplay, note: NoteKey, string: usize)
    ensures
        d.after_detection(note, string).displayed != d.displayed ==> d.after_detection(
            note,
            string,
        ).displayed == Some(note) && d.after_detection(note, string).candidate_count
            >= HYSTERESIS_FRAMES,
{
}

/// How many of the last frames of `frames` detected the same note as the
/// last frame (0 when the last frame was silent).
pub open spec fn trailing_run(frames: Seq<Option<NoteKey>>) -> nat
    decreases frames.len(),
{
    if frames.len() == 0 {
        0
    } else if frames.last() is None {
        0
    } else if frames.len() == 1 {
        1
    } else if frames[frames.len() - 2] == frames.last() {
        trailing_run(frames.drop_last()) + 1
    } else {
        1
    }
}

/// From start-up, a frame changes the display only when it and the
/// `HYSTERESIS_FRAMES - 1` frames before it all detected the note now shown:
/// a silent frame or another note among the last `HYSTERESIS_FRAMES` frames
/// keeps the display as it was.
pub proof fn law_switch_needs_consecutive_detections(frames: Seq<Option<NoteKey>>, frame: Option<NoteKey>)
    requires
        frames.len() + 1 < u32::MAX,
        NoteDisplay::initial().after_frames(frames.push(frame)).displayed
            != NoteDisplay::initial().after_frames(frames).displayed,
    ensures
        frame is Some,
        NoteDisplay::initial().after_frames(frames.push(frame)).displayed == frame,
        frames.len() + 1 >= HYSTERESIS_FRAMES,
        forall|i: int|
            frames.len() + 1 - HYSTERESIS_FRAMES <= i < frames.len() ==> #[trigger] frames[i] == frame,
{
    let all = frames.push(frame);
    assert(all.drop_last() =~= frames);
    lemma_count_is_trailing_run(all);
    lemma_trailing_run_equal(all, HYSTERESIS_FRAMES as nat);
    assert forall|i: int| frames.len() + 1 - HYSTERESIS_FRAMES <= i < frames.len() implies #[trigger] frames[i]
        == frame by {
        assert(all[i] == all.last());
    }
}

/// From start-up, after `frames` the pending note is the last frame's and
/// its count is the length of the last frame's trailing run of detections.
pub proof fn lemma_count_is_trailing_run(frames: Seq<Option<NoteKey>>)
    requires
        frames.len() < u32::MAX,
    ensures
        NoteDisplay::initial().after_frames(frames).candidate == (if frames.len() == 0 {
            None
        } else {
            frames.last()
        }),
        NoteDisplay::initial().after_frames(frames).candidate_count == trailing_run(frames),
    decreases frames.len(),
{
    if frames.len() > 0 {
        let prefix = frames.drop_last();
        lemma_count_is_trailing_run(prefix);
        lemma_trailing_run_bound(prefix);
        if frames.len() > 1 {
            assert(prefix.last() == frames[frames.len() - 2]);
        }
    }
}

proof fn lemma_trailing_run_bound(frames: Seq<Option<NoteKey>>)
    ensures
        trailing_run(frames) <= frames.len(),
    decreases frames.len(),
{
    if frames.len() > 1 {
        lemma_trailing_run_bound(frames.drop_last());
    }
}

/// The last `trailing_run(frames)` frames all equal the last frame.
pub proof fn lemma_trailing_run_equal(frames: Seq<Option<NoteKey>>, k: nat)
    requires
        k <= trailing_run(frames),
    ensures
        k <= frames.len(),
        forall|i: int| frames.len() - k <= i < frames.len() ==> #[trigger] frames[i] == frames.last(),
    decreases frames.len(),
{
    lemma_trailing_run_bound(frames);
    if frames.len() > 1 && k > 1 && frames[frames.len() - 2] == frames.last() {
        let prefix = frames.drop_last();
        lemma_trailing_run_equal(prefix, (k - 1) as nat);
        assert forall|i: int| frames.len() - k <= i < frames.len() implies #[trigger] frames[i]
            == frames.last() by {
            if i < frames.len() - 1 {
                assert(frames[i] == prefix[i]);
                assert(prefix.last() == frames.last());
            }
        }
    }
}

/// `HYSTERESIS_FRAMES` consecutive detections of a note put it on screen,
/// whatever was shown or pending before.
pub proof fn law_consecutive_detections_show_note(d: NoteDisplay, note: NoteKey)
    requires
        d.candidate_count <= u32::MAX - HYSTERESIS_FRAMES,
    ensures
        d.after_detections(seq![note, note, note, note, note]).displayed == Some(note),
{
    let five = seq![note, note, note, note, note];
    assert(five.drop_last() =~= seq![note, note, note, note]);
    assert(five.drop_last().drop_last() =~= seq![note, note, note]);
    assert(five.drop_last().drop_last().drop_last() =~= seq![note, note]);
    assert(five.drop_last().drop_last().drop_last().drop_last() =~= seq![note]);
    assert(seq![note].drop_last() =~= Seq::<NoteKey>::empty());
    assert(d.after_detections(Seq::<NoteKey>::empty()) == d);
    let s1 = d.after_detections(seq![note]);
    assert(s1.candidate == Some(note) && s1.candidate_count >= 1);
    let s2 = d.after_detections(seq![note, note]);
    assert(s2.candidate_count >= 2);
    let s3 = d.after_detections(seq![note, note, note]);
    assert(s3.candidate_count >= 3);
    let s4 = d.after_detections(seq![note, note, note, note]);
    assert(s4.candidate_count >= 4);
}

/// A detection resets the silence count, and from there the `k`-th silent
/// frame fades the display once `k` exceeds `FADE_AFTER_FRAMES` and clears
/// it (forgetting the nearest string) once `k` exceeds `SILENCE_TIMEOUT`;
/// the pending note is dropped on the first silent frame.
pub proof fn law_silence_timeline(d: NoteDisplay, note: NoteKey, string: usize, k: nat)
    requires
        1 <= k < u32::MAX,
    ensures
        d.after_detection(note, string).silence_frames == 0,
        d.after_detection(note, string).after_silences(k).silence_frames == k,
        NoteDisplay::silence_effect(d.after_detection(note, string).after_silences(k).silence_frames)
            == (SilenceEffect { fade: k > FADE_AFTER_FRAMES, clear: k > SILENCE_TIMEOUT }),
        k > SILENCE_TIMEOUT ==> d.after_detection(note, string).after_silences(k).auto_string is None,
        k <= SILENCE_TIMEOUT ==> d.after_detection(note, string).after_silences(k).auto_string == Some(
            string,
        ),
        d.after_detection(note, string).after_silences(k).displayed == d.after_detection(
            note,
            string,
        ).displayed,
        d.after_detection(note, string).after_silences(k).candidate is None,
        d.after_detection(note, string).after_silences(k).candidate_count == 0,
    decreases k,
{
    let start = d.after_detection(note, string);
    if k > 1 {
        law_silence_timeline(d, note, string, (k - 1) as nat);
    } else {
        assert(start.after_silences(0) == start);
    }
}

} // verus!
