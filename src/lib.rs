//! Resonance measurement: excitation signals, the capture/playback session
//! protocol, and peak search over a spectrum.

pub mod buffer;
pub mod cursor;
pub mod device;
pub mod plot;
pub mod session;
pub mod signal;
pub mod spectrum;
