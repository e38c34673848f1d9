//! The tuner's controls: tuning knob, string selection, reference tone and
//! input device. Each user action is a transition of `TunerControls`, and
//! what it asks of the tone generator is returned as a `ToneAction`.
use vstd::prelude::*;

verus! {

/// What the tone generator must do after a control action.
#[derive(Debug, Clone, Copy, PartialEq, Eq, Structural)]
pub enum ToneAction {
    /// Leave the generator as it is.
    Nothing,
    /// Start the reference tone of this string of the current tuning, at
    /// the current volume.
    Start(usize),
    /// Keep sounding, at the frequency of this string of the current tuning.
    Retune(usize),
    /// Silence the generator.
    Stop,
}

/// The abstract state of the controls.
pub struct ControlsModel {
    /// Number of strings of each tuning.
    pub string_counts: Seq<usize>,
    pub tuning: int,
    pub selected_string: Option<int>,
    pub playing_string: Option<int>,
    pub device_count: int,
    /// 0 is the default input device, `k` the `k`-th listed one.
    pub device: int,
}

impl ControlsModel {
    /// Number of strings of the current tuning.
    pub open spec fn string_count(self) -> int {
        self.string_counts[self.tuning] as int
    }

    /// What the controls keep true between actions.
    pub open spec fn wf(self) -> bool {
        &&& self.string_counts.len() > 0
        &&& 0 <= self.tuning < self.string_counts.len()
        &&& (self.selected_string matches Some(i) ==> 0 <= i < self.string_count())
        &&& (self.playing_string matches Some(i) ==> 0 <= i)
        &&& 0 <= self.device <= self.device_count
    }

    /// Selecting string `index` (number keys, string buttons): ignored when
    /// the tuning has no such string.
    pub open spec fn select_string(self, index: int) -> ControlsModel {
        if 0 <= index < self.string_count() {
            ControlsModel { selected_string: Some(index), ..self }
        } else {
            self
        }
    }

    /// Back to automatic string detection.
    pub open spec fn select_auto(self) -> ControlsModel {
        ControlsModel { selected_string: None, ..self }
    }

    /// Space bar or footswitch: stop the tone if one plays, else start the
    /// selected string's (the first string's in automatic mode).
    pub open spec fn toggle_tone(self) -> (ControlsModel, ToneAction) {
        if self.playing_string is Some {
            (ControlsModel { playing_string: None, ..self }, ToneAction::Stop)
        } else {
            let index = match self.selected_string {
                Some(i) => i,
                None => 0,
            };
            if index < self.string_count() {
                (ControlsModel { playing_string: Some(index), ..self }, ToneAction::Start(index as usize))
            } else {
                (self, ToneAction::Nothing)
            }
        }
    }

    /// The play button of string `index`: stop it if it is the one playing,
    /// else start it.
    pub open spec fn press_play(self, index: int) -> (ControlsModel, ToneAction) {
        if self.playing_string == Some(index) {
            (ControlsModel { playing_string: None, ..self }, ToneAction::Stop)
        } else {
            (ControlsModel { playing_string: Some(index), ..self }, ToneAction::Start(index as usize))
        }
    }

    /// Tuning knob up: the next tuning (the last one stays), automatic mode.
    pub open spec fn next_tuning(self) -> ControlsModel {
        ControlsModel {
            tuning: if self.tuning + 1 < self.string_counts.len() {
                self.tuning + 1
            } else {
                self.string_counts.len() - 1
            },
            selected_string: None,
            ..self
        }
    }

    /// Tuning knob down: the previous tuning (the first one stays),
    /// automatic mode.
    pub open spec fn previous_tuning(self) -> ControlsModel {
        ControlsModel {
            tuning: if self.tuning > 0 {
                self.tuning - 1
            } else {
                0
            },
            selected_string: None,
            ..self
        }
    }

    /// Each frame: a playing tone follows the current tuning, and stops if
    /// the tuning has no such string.
    pub open spec fn sync_tone(self) -> (ControlsModel, ToneAction) {
        match self.playing_string {
            Some(i) => if i < self.string_count() {
                (self, ToneAction::Retune(i as usize))
            } else {
                (ControlsModel { playing_string: None, ..self }, ToneAction::Stop)
            },
            None => (self, ToneAction::Nothing),
        }
    }

    /// The input selector: the next device, after the last the default one.
    pub open spec fn next_device(self) -> ControlsModel {
        ControlsModel { device: (self.device + 1) % (self.device_count + 1), ..self }
    }
}

/// The tuner's control state.
pub struct TunerControls {
    /// Number of strings of each tuning, in knob order.
    pub string_counts: Vec<usize>,
    pub selected_tuning: usize,
    pub selected_string: Option<usize>,
    pub playing_string: Option<usize>,
    /// Number of listed input devices.
    pub device_count: usize,
    /// 0 is the default input device, `k` the `k`-th listed one.
    pub selected_device: usize,
}

pub open spec fn opt_int(o: Option<usize>) -> Option<int> {
    match o {
        Some(i) => Some(i as int),
        None => None,
    }
}

impl View for TunerControls {
    type V = ControlsModel;

    open spec fn view(&self) -> ControlsModel {
        ControlsModel {
            string_counts: self.string_counts@,
            tuning: self.selected_tuning as int,
            selected_string: opt_int(self.selected_string),
            playing_string: opt_int(self.playing_string),
            device_count: self.device_count as int,
            device: self.selected_device as int,
        }
    }
}

impl TunerControls {
    /// The controls at start-up: first tuning, automatic mode, no tone,
    /// default input device.
    pub fn new(string_counts: Vec<usize>, device_count: usize) -> (c: Self)
        requires
            string_counts@.len() > 0,
            device_count < usize::MAX,
        ensures
            c@.wf(),
            c@.string_counts == string_counts@,
            c@.tuning == 0,
            c@.selected_string is None,
            c@.playing_string is None,
            c@.device_count == device_count,
            c@.device == 0,
            c.device_count < usize::MAX,
    {
        TunerControls {
            string_counts,
            selected_tuning: 0,
            selected_string: None,
            playing_string: None,
            device_count,
            selected_device: 0,
        }
    }

    /// Number of strings of the current tuning.
    pub fn string_count(&self) -> (n: usize)
        requires
            self@.wf(),
        ensures
            n == self@.string_count(),
    {
        self.string_counts[self.selected_tuning]
    }

    /// Selects string `index` if the current tuning has it.
    pub fn select_string(&mut self, index: usize)
        requires
            old(self)@.wf(),
        ensures
            final(self)@ == old(self)@.select_string(index as int),
            final(self)@.wf(),
            final(self).device_count == old(self).device_count,
    {
        if index < self.string_count() {
            self.selected_string = Some(index);
        }
    }

    /// Back to automatic string detection.
    pub fn select_auto(&mut self)
        requires
            old(self)@.wf(),
        ensures
            final(self)@ == old(self)@.select_auto(),
            final(self)@.wf(),
            final(self).device_count == old(self).device_count,
    {
        self.selected_string = None;
    }

    /// Space bar or footswitch.
    pub fn toggle_tone(&mut self) -> (action: ToneAction)
        requires
            old(self)@.wf(),
        ensures
            (final(self)@, action) == old(self)@.toggle_tone(),
            final(self)@.wf(),
            final(self).device_count == old(self).device_count,
    {
        if self.playing_string.is_some() {
            self.playing_string = None;
            ToneAction::Stop
        } else {
            let index = match self.selected_string {
                Some(i) => i,
                None => 0,
            };
            if index < self.string_count() {
                self.playing_string = Some(index);
                ToneAction::Start(index)
            } else {
                ToneAction::Nothing
            }
        }
    }

    /// The play button of string `index` of the current tuning.
    pub fn press_play(&mut self, index: usize) -> (action: ToneAction)
        requires
            old(self)@.wf(),
        ensures
            (final(self)@, action) == old(self)@.press_play(index as int),
            final(self)@.wf(),
            final(self).device_count == old(self).device_count,
    {
        let same = match self.playing_string {
            Some(p) => p == index,
            None => false,
        };
        if same {
            self.playing_string = None;
            ToneAction::Stop
        } else {
            self.playing_string = Some(index);
            ToneAction::Start(index)
        }
    }

    /// Tuning knob up.
    pub fn next_tuning(&mut self)
        requires
            old(self)@.wf(),
        ensures
            final(self)@ == old(self)@.next_tuning(),
            final(self)@.wf(),
            final(self).device_count == old(self).device_count,
    {
        let last = self.string_counts.len() - 1;
        self.selected_tuning = if self.selected_tuning + 1 < last + 1 {
            self.selected_tuning + 1
        } else {
            last
        };
        self.selected_string = None;
    }

    /// Tuning knob down.
    pub fn previous_tuning(&mut self)
        requires
            old(self)@.wf(),
        ensures
            final(self)@ == old(self)@.previous_tuning(),
            final(self)@.wf(),
            final(self).device_count == old(self).device_count,
    {
        self.selected_tuning = self.selected_tuning.saturating_sub(1);
        self.selected_string = None;
    }

    /// Keeps a playing tone in step with the current tuning.
    pub fn sync_tone(&mut self) -> (action: ToneAction)
        requires
            old(self)@.wf(),
        ensures
            (final(self)@, action) == old(self)@.sync_tone(),
            final(self)@.wf(),
            final(self).device_count == old(self).device_count,
    {
        match self.playing_string {
            Some(i) => {
                if i < self.string_count() {
                    ToneAction::Retune(i)
                } else {
                    self.playing_string = None;
                    ToneAction::Stop
                }
            },
            None => ToneAction::Nothing,
        }
    }

    /// Moves to the next input device and returns it: `None` for the
    /// default device, `Some(k)` for the `k`-th listed one (from 0).
    pub fn next_device(&mut self) -> (device: Option<usize>)
        requires
            old(self)@.wf(),
            old(self).device_count < usize::MAX,
        ensures
            final(self)@ == old(self)@.next_device(),
            final(self)@.wf(),
            final(self).device_count == old(self).device_count,
            device == (if final(self).selected_device == 0 {
                None
            } else {
                Some((final(self).selected_device - 1) as usize)
            }),
    {
        self.selected_device = (self.selected_device + 1) % (self.device_count + 1);
        if self.selected_device == 0 {
            None
        } else {
            Some(self.selected_device - 1)
        }
    }
}

impl ControlsModel {
    /// The input selector pressed `k` times.
    pub open spec fn next_device_times(self, k: nat) -> ControlsModel
        decreases k,
    {
        if k == 0 {
            self
        } else {
            self.next_device_times((k - 1) as nat).next_device()
        }
    }
}

/// Toggling the reference tone twice from silence plays the selected string
/// (or the first one in automatic mode) and then stops it, leaving the
/// controls as they were.
pub proof fn law_toggle_twice_restores_silence(c: ControlsModel)
    requires
        c.wf(),
        c.playing_string is None,
        c.string_count() > 0,
    ensures
        c.toggle_tone().1 == ToneAction::Start(
            (match c.selected_string {
                Some(i) => i,
                None => 0,
            }) as usize,
        ),
        c.toggle_tone().0.playing_string == Some(
            match c.selected_string {
                Some(i) => i,
                None => 0int,
            },
        ),
        c.toggle_tone().0.toggle_tone().1 == ToneAction::Stop,
        c.toggle_tone().0.toggle_tone().0 == c,
{
}

/// Pressing a string's play button twice starts its tone and stops it again.
pub proof fn law_play_button_twice_restores_silence(c: ControlsModel, index: int)
    requires
        c.playing_string != Some(index),
    ensures
        c.press_play(index).1 == ToneAction::Start(index as usize),
        c.press_play(index).0.press_play(index).1 == ToneAction::Stop,
        c.press_play(index).0.press_play(index).0 == (ControlsModel { playing_string: None, ..c }),
{
}

/// Turning the tuning knob returns to automatic string detection and stays
/// within the tunings; turning it up and back down returns to the same
/// tuning unless it was already at the last.
pub proof fn law_tuning_knob(c: ControlsModel)
    requires
        c.wf(),
    ensures
        c.next_tuning().wf(),
        c.previous_tuning().wf(),
        c.next_tuning().selected_string is None,
        c.previous_tuning().selected_string is None,
        c.tuning + 1 < c.string_counts.len() ==> c.next_tuning().previous_tuning().tuning == c.tuning,
        c.tuning > 0 ==> c.previous_tuning().next_tuning().tuning == c.tuning,
{
}

/// After each frame's synchronisation, a playing tone is one of the
/// current tuning's strings.
pub proof fn law_sync_plays_an_existing_string(c: ControlsModel)
    requires
        c.wf(),
    ensures
        c.sync_tone().0.playing_string matches Some(i) ==> 0 <= i < c.sync_tone().0.string_count(),
        c.sync_tone().0.tuning == c.tuning,
{
}

/// Whenever a tone is playing, whichever string it is and whatever string is
/// selected, the Space bar or footswitch stops it and changes nothing else.
pub proof fn law_toggle_stops_any_playing_tone(c: ControlsModel)
    requires
        c.playing_string is Some,
    ensures
        c.toggle_tone().1 == ToneAction::Stop,
        c.toggle_tone().0.playing_string is None,
        c.toggle_tone().0.selected_string == c.selected_string,
        c.toggle_tone().0.tuning == c.tuning,
        c.toggle_tone().0.string_counts == c.string_counts,
        c.toggle_tone().0.device == c.device,
        c.toggle_tone().0.device_count == c.device_count,
{
}

/// From silence, the Space bar or footswitch starts the selected string
/// (the first in automatic mode) when the tuning has it, and otherwise does
/// nothing at all.
pub proof fn law_toggle_from_silence(c: ControlsModel)
    requires
        c.playing_string is None,
    ensures
        ({
            let index = if c.selected_string is Some {
                c.selected_string->0
            } else {
                0int
            };
            &&& index < c.string_count() ==> c.toggle_tone().1 == ToneAction::Start(index as usize)
                && c.toggle_tone().0.playing_string == Some(index)
            &&& index >= c.string_count() ==> c.toggle_tone().1 == ToneAction::Nothing
                && c.toggle_tone().0 == c
            &&& c.toggle_tone().0.selected_string == c.selected_string
            &&& c.toggle_tone().0.tuning == c.tuning
        }),
{
}

/// Each frame, a tone on a string the current tuning has keeps sounding,
/// retuned to that string, and nothing changes; a tone on a string the
/// tuning lacks is stopped; no tone, nothing happens.
pub proof fn law_sync_keeps_existing_string_playing(c: ControlsModel, i: int)
    requires
        c.wf(),
    ensures
        c.playing_string == Some(i) && 0 <= i < c.string_count() ==> c.sync_tone() == (
            c,
            ToneAction::Retune(i as usize),
        ),
        c.playing_string == Some(i) && i >= c.string_count() ==> c.sync_tone().1 == ToneAction::Stop
            && c.sync_tone().0 == (ControlsModel { playing_string: None, ..c }),
        c.playing_string is None ==> c.sync_tone() == (c, ToneAction::Nothing),
{
}

/// The tuning knob moves one tuning at a time, stopping at both ends, and
/// leaves a playing tone alone (the next frame's synchronisation retunes it).
pub proof fn law_tuning_knob_steps(c: ControlsModel)
    requires
        c.wf(),
    ensures
        c.tuning + 1 < c.string_counts.len() ==> c.next_tuning().tuning == c.tuning + 1,
        c.tuning + 1 == c.string_counts.len() ==> c.next_tuning().tuning == c.tuning,
        c.tuning > 0 ==> c.previous_tuning().tuning == c.tuning - 1,
        c.tuning == 0 ==> c.previous_tuning().tuning == 0,
        c.next_tuning().playing_string == c.playing_string,
        c.previous_tuning().playing_string == c.playing_string,
        c.next_tuning().device == c.device,
        c.previous_tuning().device == c.device,
{
}

/// Selecting a string keeps the selection within the current tuning.
pub proof fn law_selection_in_range(c: ControlsModel, index: int)
    requires
        c.wf(),
    ensures
        c.select_string(index).wf(),
        0 <= index < c.string_count() ==> c.select_string(index).selected_string == Some(index),
        !(0 <= index < c.string_count()) ==> c.select_string(index) == c,
        c.select_auto().selected_string is None,
{
}

proof fn lemma_device_after_presses(c: ControlsModel, k: nat)
    requires
        c.wf(),
    ensures
        c.next_device_times(k).device == (c.device + k) % (c.device_count + 1),
        c.next_device_times(k).device_count == c.device_count,
    decreases k,
{
    let m = c.device_count + 1;
    if k > 0 {
        lemma_device_after_presses(c, (k - 1) as nat);
        vstd::arithmetic::div_mod::lemma_add_mod_noop(c.device + k - 1, 1, m);
        vstd::arithmetic::div_mod::lemma_mod_twice(c.device + k - 1, m);
        if m > 1 {
            vstd::arithmetic::div_mod::lemma_small_mod(1, m as nat);
        }
    } else {
        vstd::arithmetic::div_mod::lemma_small_mod(c.device as nat, m as nat);
    }
}

/// Pressing the input selector `device_count + 1` times comes back to the
/// device it started from; after `k` presses the device is
/// `(device + k) % (device_count + 1)`.
pub proof fn law_device_cycle(c: ControlsModel, k: nat)
    requires
        c.wf(),
    ensures
        c.next_device_times(k).device == (c.device + k) % (c.device_count + 1),
        c.next_device_times((c.device_count + 1) as nat).device == c.device,
{
    let m = c.device_count + 1;
    lemma_device_after_presses(c, k);
    lemma_device_after_presses(c, m as nat);
    vstd::arithmetic::div_mod::lemma_add_mod_noop(c.device, m, m);
    vstd::arithmetic::div_mod::lemma_mod_self_0(m);
    vstd::arithmetic::div_mod::lemma_small_mod(c.device as nat, m as nat);
}

} // verus!
