//! Shared state of the reference tone generator.
//!
//! The user interface and the audio callback share the tone's frequency and
//! volume lock-free: each is an `f32` stored as its bit pattern in an
//! `AtomicU32`. What the atomics hold at a given moment depends on the other
//! thread, so the methods here promise nothing about the values they read;
//! the decisions made on those values are the pure functions below.
use std::sync::atomic::AtomicU32;
use std::sync::atomic::Ordering;
use vstd::prelude::*;

verus! {

/// Bit pattern of the `f32` value 0.0: no tone.
pub const SILENT_BITS: u32 = 0;

/// Bit pattern of the `f32` value 0.25, the initial volume.
pub const DEFAULT_VOLUME_BITS: u32 = 0x3E80_0000;

/// Bit pattern of the `f32` value +infinity.
pub const POSITIVE_INFINITY_BITS: u32 = 0x7F80_0000;

/// Whether the IEEE-754 single-precision number with bit pattern `bits`
/// compares greater than 0.0: the sign bit is clear, the number is not
/// +0.0, and it is not a NaN (every pattern above +infinity with the sign
/// bit clear is a NaN).
pub open spec fn f32_bits_positive(bits: u32) -> bool {
    0 < bits <= POSITIVE_INFINITY_BITS
}

/// Whether the frequency with bit pattern `bits` makes the generator sound:
/// `f32::from_bits(bits) > 0.0`.
pub fn is_playing_frequency(bits: u32) -> (r: bool)
    ensures
        r == f32_bits_positive(bits),
{
    0 < bits && bits <= POSITIVE_INFINITY_BITS
}

/// Stopping means storing 0.0, and 0.0 does not sound.
pub proof fn law_silence_does_not_play()
    ensures
        !f32_bits_positive(SILENT_BITS),
        f32_bits_positive(DEFAULT_VOLUME_BITS),
{
}

/// Shared state for the tone generator.
pub struct ToneState {
    /// Target frequency as f32 bits (0.0 = silent).
    freq_bits: AtomicU32,
    /// Volume 0.0–1.0 as f32 bits.
    volume_bits: AtomicU32,
}

impl ToneState {
    /// Silent, at volume 0.25.
    pub fn new() -> (s: Self) {
        ToneState { freq_bits: AtomicU32::new(SILENT_BITS), volume_bits: AtomicU32::new(DEFAULT_VOLUME_BITS) }
    }

    /// Stores the bit pattern of the frequency to play.
    pub fn set_frequency_bits(&self, bits: u32) {
        self.freq_bits.store(bits, Ordering::Relaxed);
    }

    /// The bit pattern of the frequency most recently stored.
    pub fn frequency_bits(&self) -> u32 {
        self.freq_bits.load(Ordering::Relaxed)
    }

    /// Stores the bit pattern of the volume.
    pub fn set_volume_bits(&self, bits: u32) {
        self.volume_bits.store(bits, Ordering::Relaxed);
    }

    /// The bit pattern of the volume most recently stored.
    pub fn volume_bits(&self) -> u32 {
        self.volume_bits.load(Ordering::Relaxed)
    }

    /// Silences the generator: stores the frequency 0.0.
    pub fn stop(&self) {
        self.set_frequency_bits(SILENT_BITS);
    }

    /// Whether the stored frequency is above 0.0.
    pub fn is_playing(&self) -> (r: bool) {
        let bits = self.frequency_bits();
        is_playing_frequency(bits)
    }
}

} // verus!
