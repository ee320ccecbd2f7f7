//! Real-time DSP core of a two-channel audio effect: an ordered chain of
//! stateful sample transformers (filters, limiters, delays, pitch-modulated
//! playback) driven by a small set of hot-reloadable parameters.
//!
//! Samples are exact fixed-point numbers (see [`fixed`]), so every per-sample
//! rule is stated and proved as an exact contract. The host-facing layers
//! (plugin metadata, UI text, file logging) are not part of this core; a thin
//! adapter converts the host's floating-point blocks at the boundary.

pub mod fixed;
pub mod trig;
pub mod biquad;
pub mod audio_clip;
pub mod modulator;
pub mod params;
pub mod effects;
pub mod chain;
