//! A MIDI-driven synthesis engine: note decoding, per-voice ADSR envelopes
//! in fixed point, a polyphonic voice table with one slot per note number, a
//! monophonic last-note voice, and the eight-slot parameter store.

pub mod envelope;
pub mod midi;
pub mod params;
pub mod pitch;
pub mod registry;
pub mod synth;
