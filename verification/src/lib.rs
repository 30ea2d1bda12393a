//! Cycle-accurate model of the Virtual Boy's sound unit (VSU): six voices
//! (four plain wavetable voices, one sweep/modulation voice, one noise voice)
//! driven by rational dividers of a 20 MHz master clock and mixed into a
//! stream of stereo PCM frames.

pub mod bits;
pub mod laws;
pub mod mem_map;
pub mod model;
pub mod noise;
pub mod regs;
pub mod sweep;
pub mod vsu;
pub mod wave;

pub use noise::NoiseVoice;
pub use regs::{Envelope, PlayControlReg, VolumeReg};
pub use sweep::SweepModVoice;
pub use vsu::{Vsu, SAMPLE_RATE};
pub use wave::StandardVoice;
