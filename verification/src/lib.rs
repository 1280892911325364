//! A transport-synchronized audio capture engine.
//!
//! The engine records incoming audio frames while the host transport plays,
//! flushes each completed recording cycle into a stable export segment,
//! queues captured material for playback into later blocks on command, and
//! publishes a downsampled waveform envelope for a display thread through a
//! lock-free triple buffer.
//!
//! Sample values are carried in signed fixed point: [`sample::SAMPLE_SCALE`]
//! units stand for a full-scale amplitude of one.

pub mod capture;
pub mod channel;
pub mod commands;
pub mod engine;
pub mod envelope;
pub mod playback;
pub mod sample;
pub mod segment;
pub mod transport;
pub mod waveform_buffer;
