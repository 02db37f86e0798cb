//! Capture, buffering and transcription pipeline for live speech.
//!
//! The crate holds the decisions of the pipeline: when a capture session may
//! start or stop, when buffered audio becomes a segment, which segments are
//! long enough to transcribe, and how the consumption loop reacts to what it
//! receives. Device access, resampling arithmetic and the speech engine are
//! driven by the caller, which reports their results back as plain values.

pub mod audio;
pub mod channel;
pub mod command;
pub mod config;
pub mod orchestrator;
pub mod transcription;
