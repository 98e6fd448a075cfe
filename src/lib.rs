//! A small playable instrument: MIDI note messages are decoded and applied to a
//! shared synthesizer, while a periodic audio callback lays the synthesized
//! frames out in the interleaved format the output device expects. Which input
//! source feeds the synthesizer is governed by a connection lifecycle.
pub mod audio;
pub mod connection;
pub mod midi;
pub mod synth;
