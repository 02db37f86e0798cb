//! Audio capture and buffering.

pub mod processor;
pub mod recorder;
pub mod storage;
