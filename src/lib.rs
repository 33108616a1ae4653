//! Coordination core of a live call assistant: chunked capture bookkeeping,
//! discovery of finished chunk files, the transcription accept policy and the
//! events that the pipeline publishes.

pub mod text;
pub mod events;
pub mod analysis;
pub mod transcript;
pub mod discovery;
pub mod capture;
pub mod devices;
