//! Spoken commands in transcribed text.

pub mod detector;
