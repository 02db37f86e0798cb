use speech_pipeline::audio::processor::ProcessorConfig;
use speech_pipeline::audio::recorder::RecorderConfig;
use speech_pipeline::audio::storage::{AudioStorage, StorageConfig, WavFormat};
use speech_pipeline::config::{
    AppConfig, AudioPerformanceConfig, AudioRecordingConfig, CommandConfig, BUFFER_HEADROOM,
};

#[test]
fn default_app_config_values() {
    let c = AppConfig::default();
    assert_eq!(c.audio.recording.output_path, "output.wav");
    assert!(c.audio.recording.save_to_file);
    assert_eq!(c.audio.recording.output_sample_rate, 44100);
    assert_eq!(c.audio.recording.output_bits_per_sample, 16);
    assert_eq!(c.audio.recording.output_channels, 1);
    assert_eq!(c.audio.transcription.whisper_sample_rate, 16000);
    assert_eq!(c.audio.transcription.min_transcription_samples, 49000);
    assert_eq!(c.audio.transcription.language, "en");
    assert_eq!(c.audio.transcription.min_duration_millis, 1000);
    assert_eq!(c.audio.transcription.path_to_model, "model/ggml-tiny.en.bin");
    assert_eq!(c.audio.performance, AudioPerformanceConfig { channel_buffer_size: 16 });
    assert_eq!(c.commands.trigger_word, "hey computer");
    assert_eq!(c.commands.min_confidence_percent, 70);
}

#[test]
fn default_command_config_values() {
    let c = CommandConfig::default();
    assert_eq!(c.trigger_word, "hey computer");
    assert_eq!(c.min_confidence_percent, 70);
}

#[test]
fn recorder_config_follows_recording_format() {
    let mut c = AppConfig::default();
    c.audio.recording.output_channels = 2;
    c.audio.recording.output_sample_rate = 48000;
    assert_eq!(c.recorder_config(), RecorderConfig { channels: 2, sample_rate: 48000 });
}

#[test]
fn processor_config_converts_recording_format_to_engine_format() {
    let mut c = AppConfig::default();
    c.audio.recording.output_channels = 2;
    let p: ProcessorConfig = c.processor_config();
    assert_eq!(p.target_sample_rate, 16000);
    assert_eq!(p.target_channels, 1);
    assert_eq!(p.source_sample_rate, 44100);
    assert_eq!(p.source_channels, 2);
    assert_eq!(p.min_samples_for_processing, 49000);
    assert_eq!(p.max_buffer_size, 490000);
    assert!(p.is_valid());
}

#[test]
fn buffer_limit_stops_at_largest_usize() {
    assert_eq!(BUFFER_HEADROOM, 10);
    let mut c = AppConfig::default();
    c.audio.transcription.min_transcription_samples = usize::MAX / 10;
    assert_eq!(c.processor_config().max_buffer_size, usize::MAX / 10 * 10);
    c.audio.transcription.min_transcription_samples = usize::MAX / 10 + 1;
    let p = c.processor_config();
    assert_eq!(p.max_buffer_size, usize::MAX);
    assert!(p.is_valid());
    c.audio.transcription.min_transcription_samples = usize::MAX;
    assert_eq!(c.processor_config().max_buffer_size, usize::MAX);
    c.audio.transcription.min_transcription_samples = 0;
    assert_eq!(c.processor_config().max_buffer_size, 0);
}

#[test]
fn storage_config_follows_recording_settings() {
    let mut c = AppConfig::default();
    c.audio.recording = AudioRecordingConfig {
        output_path: "take.wav".to_string(),
        save_to_file: false,
        output_sample_rate: 22050,
        output_bits_per_sample: 8,
        output_channels: 2,
    };
    let s = c.storage_config();
    assert_eq!(s.output_path, "take.wav");
    assert!(!s.save_to_file);
    assert_eq!(s.output_sample_rate, 22050);
    assert_eq!(s.output_bits_per_sample, 8);
    assert_eq!(s.output_channels, 2);
}

#[test]
fn transcription_config_follows_transcription_settings() {
    let mut c = AppConfig::default();
    c.audio.transcription.language = "fr".to_string();
    c.audio.transcription.min_duration_millis = 1500;
    c.audio.transcription.whisper_sample_rate = 8000;
    c.audio.transcription.path_to_model = "fr.bin".to_string();
    let t = c.transcription_config();
    assert_eq!(t.language, "fr");
    assert_eq!(t.min_duration_millis, 1500);
    assert_eq!(t.sample_rate, 8000);
    assert_eq!(t.model_path, "fr.bin");
}

#[test]
fn default_storage_config_values() {
    let s = StorageConfig::default();
    assert_eq!(s.output_path, "output.wav");
    assert!(s.save_to_file);
    assert_eq!(s.output_sample_rate, 44100);
    assert_eq!(s.output_channels, 1);
    assert_eq!(s.output_bits_per_sample, 16);
}

#[test]
fn storage_collects_samples_in_order() {
    let mut s: AudioStorage<f32> = AudioStorage::new();
    assert!(s.samples().is_empty());
    s.add_samples(&[0.1, 0.2]);
    s.add_samples(&[]);
    s.add_samples(&[0.3]);
    assert_eq!(s.samples(), &vec![0.1f32, 0.2, 0.3]);
    assert_eq!(s.config().output_path, "output.wav");
}

#[test]
fn storage_clear_forgets_samples() {
    let mut s: AudioStorage<f32> = AudioStorage::new();
    s.add_samples(&[0.1, 0.2]);
    s.clear();
    assert!(s.samples().is_empty());
    s.add_samples(&[0.5]);
    assert_eq!(s.samples(), &vec![0.5f32]);
}

#[test]
fn save_gives_the_file_format() {
    let s: AudioStorage<f32> = AudioStorage::new();
    assert_eq!(
        s.save(),
        Some(WavFormat { channels: 1, sample_rate: 44100, bits_per_sample: 16 })
    );
}

#[test]
fn save_writes_nothing_when_switched_off() {
    let mut config = StorageConfig::default();
    config.save_to_file = false;
    let mut s: AudioStorage<f32> = AudioStorage::with_config(config);
    s.add_samples(&[0.1]);
    assert_eq!(s.save(), None);
    assert_eq!(s.samples().len(), 1);
}
