# rusty_tuner

A guitar tuner's logic as a verified library: note naming, the tunings,
the input ring buffer, the pitch display's hysteresis and silence handling,
the controls (tuning knob, string selection, reference tone, input device)
and the LED meters. Verus proves every function in `src/` against its
contract; the laws the tuner relies on are public proof functions named
`law_*`. The tone state's methods read and write shared atomics, whose
values another thread may change at any time, so their contracts say
nothing of those values.

- `src/notes.rs`: MIDI numbers, pitch classes, octaves, sharp and flat
  names, decimal octave numbers.
- `src/tuning.rs`: the nine tunings, shifting a tuning, the nearest string.
- `src/audio.rs`: the ring buffer of input samples.
- `src/tone.rs`: the tone generator's shared, lock-free state.
- `src/pitch.rs`: the analysis window of the pitch detector.
- `src/display.rs`: note hysteresis, silence fade and timeout.
- `src/controls.rs`: the controls as a state machine returning tone actions.
- `src/meter.rs`: which LEDs of the level meter and volume slider light.

`app/` is the program around it: audio I/O with cpal, pitch detection with
pitch-detection, the egui/eframe user interface, and every computation on
floating-point values (frequencies, cents, RMS levels, colours, geometry).
