//! Core of an audio player that analyses what it plays: the playback state
//! machine, the tap that cuts the played stream into chunks, the buffering in
//! front of the spectrum analysis, and the decisions of the analysis worker.
//!
//! The library performs no I/O and no floating-point arithmetic. Samples are
//! handled as bit patterns (see [`sample`]); each operation takes what the
//! caller observed of the audio device, the channels or the worker thread as
//! plain values and answers with the commands to carry out.

pub mod manager;
pub mod processor;
pub mod sample;
pub mod sample_broadcaster;
pub mod worker;

pub use manager::{AudioManager, PlaybackState};
pub use processor::AudioAnalysisData;
