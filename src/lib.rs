//! Core of a real-time guitar-effects host: the effect chain, the latency
//! ring between capture and playback, device selection and the streaming
//! lifecycle, stated and proved with Verus.

pub mod ring;
pub mod stream;
pub mod text;
pub mod effects;
pub mod pipeline;
pub mod devices;
pub mod config;
pub mod assistant;
