//! Gating of segments before they reach the speech engine.

pub mod service;
pub mod whisper;
