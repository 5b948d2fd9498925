//! Core logic of a live-stream highlight clipper: template-based event
//! detection, a lossy bounded event channel, the five-stage clip assembly
//! pipeline, transcript folding, and millisecond-exact subtitle rendering.

pub mod channel;
pub mod engine;
pub mod errors;
pub mod ffmpeg;
pub mod matcher;
pub mod pipeline;
pub mod storage;
pub mod subtitle;
pub mod text;
pub mod timestamp;
pub mod transcript;
