//! NSF (NES Sound Format) header decoding and console setup, a cycle-level
//! model of the NES APU's pulse, triangle and noise channels with their
//! frame sequencer, non-linear mixer and resampler, and a WAVE file writer
//! for the resulting PCM stream.
pub mod apu;
mod bits;
pub mod channel;
pub mod counters;
pub mod envelope;
pub mod frame_sequencer;
pub mod mixer;
pub mod noise;
pub mod nsf_header;
pub mod nsf_init;
pub mod pulse;
pub mod sample_pump;
pub mod sweep;
pub mod triangle;
pub mod wav;
