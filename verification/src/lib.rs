//! Core logic of an interactive terminal signal generator: per-channel
//! synthesis parameters, the store that shares them between the interface
//! and the audio callback, the audio stream lifecycle, and the event
//! pipeline that merges terminal input with a periodic tick.

pub mod app;
pub mod audio;
pub mod event;
pub mod parameter;
pub mod store;
pub mod text;
pub mod update;
pub mod waveform;
