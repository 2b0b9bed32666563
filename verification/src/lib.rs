//! Core of a bit-perfect audio player: the hardware output is reconfigured
//! to each file's native sample rate, bit depth and channel count, so no
//! resampling or depth conversion ever touches the audio data. This crate
//! holds the playback engine's decision logic — device configuration and
//! buffering policy, the per-track decode session, volume scaling and sample
//! serialization, and the gapless playlist engine — specified and verified;
//! the thin shell that talks to the operating system's audio and file layers
//! lives outside it.

pub mod device;
pub mod engine;
pub mod paths;
pub mod session;
pub mod state;
pub mod volume;
