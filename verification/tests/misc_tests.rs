use rusty_tuner::pitch::{detection_window_start, DETECTION_SIZE, PADDING};
use rusty_tuner::tone::{
    is_playing_frequency, ToneState, DEFAULT_VOLUME_BITS, POSITIVE_INFINITY_BITS, SILENT_BITS,
};

#[test]
fn too_few_samples_give_no_window() {
    assert_eq!(detection_window_start(100), None);
    assert_eq!(detection_window_start(DETECTION_SIZE - 1), None);
    assert_eq!(detection_window_start(0), None);
}

#[test]
fn window_is_the_last_detection_size_samples() {
    assert_eq!(detection_window_start(DETECTION_SIZE), Some(0));
    assert_eq!(detection_window_start(8192), Some(4096));
    assert_eq!(DETECTION_SIZE, 4096);
    assert_eq!(PADDING, 2048);
}

#[test]
fn bit_constants_match_f32() {
    assert_eq!(SILENT_BITS, 0.0_f32.to_bits());
    assert_eq!(DEFAULT_VOLUME_BITS, 0.25_f32.to_bits());
    assert_eq!(POSITIVE_INFINITY_BITS, f32::INFINITY.to_bits());
}

#[test]
fn playing_means_frequency_above_zero() {
    for f in [440.0_f32, 82.41, f32::MIN_POSITIVE, 1e-45, f32::MAX, f32::INFINITY] {
        assert_eq!(is_playing_frequency(f.to_bits()), f > 0.0, "{f}");
    }
    for f in [0.0_f32, -0.0, -1.0, f32::NEG_INFINITY, f32::NAN, -f32::NAN] {
        assert_eq!(is_playing_frequency(f.to_bits()), f > 0.0, "{f}");
    }
}

#[test]
fn tone_state_starts_silent_and_stops() {
    let state = ToneState::new();
    assert!(!state.is_playing());
    assert_eq!(state.volume_bits(), 0.25_f32.to_bits());
    state.set_frequency_bits(110.0_f32.to_bits());
    assert!(state.is_playing());
    assert_eq!(f32::from_bits(state.frequency_bits()), 110.0);
    state.set_volume_bits(0.5_f32.to_bits());
    assert_eq!(f32::from_bits(state.volume_bits()), 0.5);
    state.stop();
    assert!(!state.is_playing());
    assert_eq!(state.frequency_bits(), 0);
}

use rusty_tuner::meter::{volume_segment_state, vu_led_state, LedState, SegmentState};

#[test]
fn level_meter_leds() {
    assert_eq!(vu_led_state(0, 3, 7, true), LedState::Lit);
    assert_eq!(vu_led_state(2, 3, 7, true), LedState::Lit);
    assert_eq!(vu_led_state(3, 3, 7, true), LedState::Dark);
    assert_eq!(vu_led_state(6, 3, 7, true), LedState::Peak);
    assert_eq!(vu_led_state(6, 3, 7, false), LedState::Dark);
    // A peak at or below the level is not shown separately.
    assert_eq!(vu_led_state(2, 3, 3, true), LedState::Lit);
    assert_eq!(vu_led_state(0, 0, 0, true), LedState::Dark);
    let peaks = (0..18).filter(|&i| vu_led_state(i, 5, 12, true) == LedState::Peak).count();
    assert_eq!(peaks, 1);
}

#[test]
fn volume_slider_segments() {
    assert_eq!(volume_segment_state(0, 10), SegmentState::Lit);
    assert_eq!(volume_segment_state(6, 10), SegmentState::Lit);
    assert_eq!(volume_segment_state(7, 10), SegmentState::Glowing);
    assert_eq!(volume_segment_state(9, 10), SegmentState::Glowing);
    assert_eq!(volume_segment_state(10, 10), SegmentState::Unlit);
    assert_eq!(volume_segment_state(0, 2), SegmentState::Glowing);
    assert_eq!(volume_segment_state(0, 0), SegmentState::Unlit);
}
