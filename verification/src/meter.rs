//! Which segments of the tuner's LED meters light up.
use vstd::prelude::*;

verus! {

/// Number of LEDs of the vertical level meter.
pub const VU_LEDS: usize = 18;

/// Number of segments of the volume slider.
pub const VOLUME_SEGMENTS: usize = 28;

/// How one LED of the level meter is drawn.
#[derive(Debug, Clone, Copy, PartialEq, Eq, Structural)]
pub enum LedState {
    /// Below the current level.
    Lit,
    /// The held peak, above the current level.
    Peak,
    Dark,
}

/// State of LED `index` (0 at the bottom): lit below the level, the peak
/// LED when the held peak reaches it above the level, else dark.
pub open spec fn vu_led_spec(index: usize, active: usize, peak_led: usize, peak_visible: bool) -> LedState {
    if index < active {
        LedState::Lit
    } else if peak_visible && peak_led > active && index + 1 == peak_led {
        LedState::Peak
    } else {
        LedState::Dark
    }
}

/// State of LED `index` (0 at the bottom) when the level lights `active`
/// LEDs and the held peak reaches LED `peak_led` (counted from 1), and
/// `peak_visible` tells whether the peak is high enough to show at all.
pub fn vu_led_state(index: usize, active: usize, peak_led: usize, peak_visible: bool) -> (s: LedState)
    ensures
        s == vu_led_spec(index, active, peak_led, peak_visible),
{
    if index < active {
        LedState::Lit
    } else if index == peak_led.saturating_sub(1) && peak_led > active && peak_visible {
        LedState::Peak
    } else {
        LedState::Dark
    }
}

/// How one segment of the volume slider is drawn.
#[derive(Debug, Clone, Copy, PartialEq, Eq, Structural)]
pub enum SegmentState {
    /// Lit, and among the last three lit: drawn with a glow.
    Glowing,
    Lit,
    Unlit,
}

/// State of volume segment `index` when the first `filled` segments are lit:
/// the last three lit ones glow.
pub open spec fn volume_segment_spec(index: usize, filled: usize) -> SegmentState {
    if index >= filled {
        SegmentState::Unlit
    } else if index + 3 >= filled {
        SegmentState::Glowing
    } else {
        SegmentState::Lit
    }
}

/// State of volume segment `index` when the first `filled` segments are lit.
pub fn volume_segment_state(index: usize, filled: usize) -> (s: SegmentState)
    ensures
        s == volume_segment_spec(index, filled),
{
    if index < filled {
        if index >= filled.saturating_sub(3) {
            SegmentState::Glowing
        } else {
            SegmentState::Lit
        }
    } else {
        SegmentState::Unlit
    }
}

/// Exactly the LEDs below the level are lit, and at most one LED shows the
/// held peak, the one it reaches, and only above the level.
pub proof fn law_meter_shows_level_and_peak(active: usize, peak_led: usize, peak_visible: bool, i: usize, j: usize)
    ensures
        (i < active) == (vu_led_spec(i, active, peak_led, peak_visible) == LedState::Lit),
        vu_led_spec(i, active, peak_led, peak_visible) == LedState::Peak && vu_led_spec(
            j,
            active,
            peak_led,
            peak_visible,
        ) == LedState::Peak ==> i == j,
        vu_led_spec(i, active, peak_led, peak_visible) == LedState::Peak ==> i >= active && i + 1
            == peak_led,
{
}

/// The held peak shows whenever it is visible and above the level: on the
/// LED it reaches, including the one just above the level.
pub proof fn law_peak_shown_above_level(active: usize, peak_led: usize)
    requires
        peak_led > active,
    ensures
        vu_led_spec((peak_led - 1) as usize, active, peak_led, true) == LedState::Peak,
        forall|i: usize| i >= active && i + 1 != peak_led ==> vu_led_spec(i, active, peak_led, true)
            == LedState::Dark,
        forall|i: usize| #![trigger vu_led_spec(i, active, peak_led, false)] i >= active ==> vu_led_spec(i, active, peak_led, false)
            == LedState::Dark,
{
}

/// Exactly the first `filled` segments of the volume slider are lit, and
/// of those the last three (all of them when fewer) glow.
pub proof fn law_volume_segments(index: usize, filled: usize)
    ensures
        (index < filled) == (volume_segment_spec(index, filled) != SegmentState::Unlit),
        index < filled ==> ((volume_segment_spec(index, filled) == SegmentState::Glowing) == (
        filled - index <= 3)),
{
}

} // verus!
