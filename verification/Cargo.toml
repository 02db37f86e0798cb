[package]
name = "speech_pipeline"
version = "0.1.0"
edition = "2021"
publish = false

[dependencies]
cpal = "0.15"
hound = "3.5"
once_cell = "1"
serde = { version = "1", features = ["derive"] }
serde_yaml = "0.9"
tokio = { version = "1", features = ["sync", "rt", "rt-multi-thread", "time"] }
vad-rs = "0.1"
whisper-rs = "0.14"
