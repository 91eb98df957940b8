//! Core of a small real-time polyphonic synthesizer.
//!
//! The crate holds the performance-state and mixing logic that can be stated
//! and proved exactly: the voice pool with its note-on/note-off discipline,
//! the four-slot controller bank, the envelope gate, the translation of raw
//! performance event triples into state mutations, the per-sample mix of
//! unit voice contributions, and the exact rational law of the amplitude
//! envelope.  The floating-point sample path (the sine oscillator's sign
//! test, the smoothed envelope value, the resonant low-pass filter) and the
//! device transports live outside, in the embedding program, which drives
//! this state and hands each per-sample decision back as plain values.

pub mod envelope;
pub mod mixer;
pub mod render;
pub mod state;
