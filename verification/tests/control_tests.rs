use rusty_tuner::controls::{ToneAction, TunerControls};
use rusty_tuner::display::{
    waveform_start, NoteDisplay, SilenceEffect, HYSTERESIS_FRAMES, SILENCE_TIMEOUT,
};

#[test]
fn note_shown_after_five_detections() {
    let mut d = NoteDisplay::new();
    assert_eq!(d.displayed, None);
    for _ in 0..(HYSTERESIS_FRAMES - 1) {
        d.detect((9, 4), 1);
        assert_eq!(d.displayed, None);
    }
    d.detect((9, 4), 1);
    assert_eq!(d.displayed, Some((9, 4)));
    assert_eq!(d.auto_string, Some(1));
}

#[test]
fn stray_note_does_not_flicker() {
    let mut d = NoteDisplay::new();
    for _ in 0..6 {
        d.detect((4, 2), 0);
    }
    assert_eq!(d.displayed, Some((4, 2)));
    d.detect((5, 2), 0);
    assert_eq!(d.displayed, Some((4, 2)));
    d.detect((4, 2), 0);
    assert_eq!(d.candidate_count, 1);
    assert_eq!(d.displayed, Some((4, 2)));
    // Same pitch class, other octave, is another note.
    for _ in 0..4 {
        d.detect((4, 3), 0);
    }
    assert_eq!(d.displayed, Some((4, 2)));
    d.detect((4, 3), 0);
    assert_eq!(d.displayed, Some((4, 3)));
}

#[test]
fn silence_fades_then_clears() {
    let mut d = NoteDisplay::new();
    d.detect((9, 4), 2);
    for k in 1..=25u32 {
        let effect = d.silence();
        assert_eq!(d.silence_frames, k);
        assert_eq!(effect, SilenceEffect { fade: k > 3, clear: k > SILENCE_TIMEOUT });
        if k > SILENCE_TIMEOUT {
            assert_eq!(d.auto_string, None);
        } else {
            assert_eq!(d.auto_string, Some(2));
        }
    }
    d.detect((9, 4), 2);
    assert_eq!(d.silence_frames, 0);
}

#[test]
fn start_up_display_is_past_the_timeout() {
    let mut d = NoteDisplay::new();
    assert_eq!(d.silence_frames, SILENCE_TIMEOUT);
    let effect = d.silence();
    assert!(effect.clear && effect.fade);
}

#[test]
fn silence_count_saturates() {
    let mut d = NoteDisplay::new();
    d.silence_frames = u32::MAX;
    let effect = d.silence();
    assert_eq!(d.silence_frames, u32::MAX);
    assert!(effect.clear);
}

fn controls() -> TunerControls {
    TunerControls::new(vec![6; 9], 2)
}

#[test]
fn space_toggles_reference_tone() {
    let mut c = controls();
    assert_eq!(c.toggle_tone(), ToneAction::Start(0));
    assert_eq!(c.playing_string, Some(0));
    assert_eq!(c.toggle_tone(), ToneAction::Stop);
    assert_eq!(c.playing_string, None);
    c.select_string(3);
    assert_eq!(c.toggle_tone(), ToneAction::Start(3));
    assert_eq!(c.sync_tone(), ToneAction::Retune(3));
}

#[test]
fn number_keys_select_existing_strings_only() {
    let mut c = TunerControls::new(vec![6, 4], 0);
    c.select_string(5);
    assert_eq!(c.selected_string, Some(5));
    c.select_string(6);
    assert_eq!(c.selected_string, Some(5));
    c.select_auto();
    assert_eq!(c.selected_string, None);
    c.next_tuning();
    c.select_string(5);
    assert_eq!(c.selected_string, None);
    c.select_string(3);
    assert_eq!(c.selected_string, Some(3));
}

#[test]
fn tuning_knob_stays_in_range_and_clears_selection() {
    let mut c = controls();
    c.previous_tuning();
    assert_eq!(c.selected_tuning, 0);
    c.select_string(2);
    c.next_tuning();
    assert_eq!(c.selected_tuning, 1);
    assert_eq!(c.selected_string, None);
    for _ in 0..20 {
        c.next_tuning();
    }
    assert_eq!(c.selected_tuning, 8);
}

#[test]
fn play_buttons() {
    let mut c = controls();
    assert_eq!(c.press_play(4), ToneAction::Start(4));
    assert_eq!(c.press_play(2), ToneAction::Start(2));
    assert_eq!(c.playing_string, Some(2));
    assert_eq!(c.press_play(2), ToneAction::Stop);
    assert_eq!(c.playing_string, None);
    assert_eq!(c.sync_tone(), ToneAction::Nothing);
}

#[test]
fn tone_stops_when_tuning_lacks_the_string() {
    let mut c = TunerControls::new(vec![6, 4], 0);
    assert_eq!(c.press_play(5), ToneAction::Start(5));
    c.next_tuning();
    assert_eq!(c.sync_tone(), ToneAction::Stop);
    assert_eq!(c.playing_string, None);
}

#[test]
fn input_selector_cycles_through_devices() {
    let mut c = controls();
    assert_eq!(c.next_device(), Some(0));
    assert_eq!(c.next_device(), Some(1));
    assert_eq!(c.next_device(), None);
    assert_eq!(c.selected_device, 0);
}

#[test]
fn waveform_shows_last_twenty_milliseconds() {
    assert_eq!(waveform_start(44100, 4096), 4096 - 882);
    assert_eq!(waveform_start(48000, 4096), 4096 - 960);
    assert_eq!(waveform_start(44100, 100), 0);
    assert_eq!(waveform_start(0, 10), 10);
}

#[test]
fn silent_frame_restarts_hysteresis() {
    let mut d = NoteDisplay::new();
    d.detect((9, 4), 0);
    d.silence();
    assert_eq!(d.candidate, None);
    assert_eq!(d.candidate_count, 0);
    for _ in 0..4 {
        d.detect((9, 4), 0);
        assert_eq!(d.displayed, None);
    }
    d.detect((9, 4), 0);
    assert_eq!(d.displayed, Some((9, 4)));
    // Silence keeps what is shown.
    d.silence();
    assert_eq!(d.displayed, Some((9, 4)));
}
