//! Application settings and the component settings derived from them.

use crate::audio::processor::ProcessorConfig;
use crate::audio::recorder::RecorderConfig;
use crate::audio::storage::StorageConfig;
use crate::transcription::service::TranscriptionConfig;
use vstd::prelude::*;

verus! {

/// How captured audio is recorded and written out.
#[derive(Clone, Debug)]
pub struct AudioRecordingConfig {
    /// Where the recording is written.
    pub output_path: String,
    /// Whether the recording is written at all.
    pub save_to_file: bool,
    /// Sample rate of the written file, in Hz.
    pub output_sample_rate: u32,
    /// Bits per sample of the written file.
    pub output_bits_per_sample: u16,
    /// Number of channels of the written file (1 = mono, 2 = stereo).
    pub output_channels: u16,
}

/// How segments are transcribed.
#[derive(Clone, Debug)]
pub struct AudioTranscriptionConfig {
    /// Sample rate the speech engine takes, in Hz.
    pub whisper_sample_rate: u32,
    /// Number of buffered samples from which a segment is emitted.
    pub min_transcription_samples: usize,
    /// Language to transcribe.
    pub language: String,
    /// Shortest segment worth transcribing, in milliseconds.
    pub min_duration_millis: u64,
    /// Where the engine's model lies.
    pub path_to_model: String,
}

/// Sizing of the pipeline.
#[derive(Clone, Copy, Debug, PartialEq, Eq, Structural)]
pub struct AudioPerformanceConfig {
    /// Number of sample blocks that may wait between capture and consumption.
    pub channel_buffer_size: usize,
}

/// All audio settings.
#[derive(Clone, Debug)]
pub struct AudioConfig {
    pub recording: AudioRecordingConfig,
    pub transcription: AudioTranscriptionConfig,
    pub performance: AudioPerformanceConfig,
}

/// Settings of command detection.
#[derive(Clone, Debug)]
pub struct CommandConfig {
    /// Phrase that has to occur before a command is looked for.
    pub trigger_word: String,
    /// Least confidence, in percent, at which a command counts.
    pub min_confidence_percent: u8,
}

/// The settings of the whole application.
#[derive(Clone, Debug)]
pub struct AppConfig {
    pub audio: AudioConfig,
    pub commands: CommandConfig,
}

/// How many times the emission threshold the processor may buffer.
pub const BUFFER_HEADROOM: usize = 10;

impl CommandConfig {
    /// The settings that `default` gives.
    pub open spec fn is_default(&self) -> bool {
        &&& self.trigger_word@ == "hey computer"@
        &&& self.min_confidence_percent == 70
    }
}

impl Default for CommandConfig {
    fn default() -> (config: Self)
        ensures
            config.is_default(),
    {
        CommandConfig { trigger_word: "hey computer".to_string(), min_confidence_percent: 70 }
    }
}

impl AppConfig {
    /// The settings that `default` gives.
    pub open spec fn is_default(&self) -> bool {
        &&& self.audio.recording.output_path@ == "output.wav"@
        &&& self.audio.recording.save_to_file
        &&& self.audio.recording.output_sample_rate == 44100
        &&& self.audio.recording.output_bits_per_sample == 16
        &&& self.audio.recording.output_channels == 1
        &&& self.audio.transcription.whisper_sample_rate == 16000
        &&& self.audio.transcription.min_transcription_samples == 49000
        &&& self.audio.transcription.language@ == "en"@
        &&& self.audio.transcription.min_duration_millis == 1000
        &&& self.audio.transcription.path_to_model@ == "model/ggml-tiny.en.bin"@
        &&& self.audio.performance.channel_buffer_size == 16
        &&& self.commands.is_default()
    }

    /// The recorder settings these settings call for.
    pub open spec fn recorder_settings(&self) -> RecorderConfig {
        RecorderConfig {
            channels: self.audio.recording.output_channels,
            sample_rate: self.audio.recording.output_sample_rate,
        }
    }

    /// The processor's buffer limit: `BUFFER_HEADROOM` times the emission
    /// threshold, or the largest `usize` where that does not fit.
    pub open spec fn buffer_limit(&self) -> usize {
        if self.audio.transcription.min_transcription_samples * BUFFER_HEADROOM <= usize::MAX {
            (self.audio.transcription.min_transcription_samples * BUFFER_HEADROOM) as usize
        } else {
            usize::MAX
        }
    }

    /// The processor settings these settings call for: from the recording
    /// format to mono at the engine's rate.
    pub open spec fn processor_settings(&self) -> ProcessorConfig {
        ProcessorConfig {
            target_sample_rate: self.audio.transcription.whisper_sample_rate,
            target_channels: 1,
            source_sample_rate: self.audio.recording.output_sample_rate,
            source_channels: self.audio.recording.output_channels,
            min_samples_for_processing: self.audio.transcription.min_transcription_samples,
            max_buffer_size: self.buffer_limit(),
        }
    }

    /// The storage settings these settings call for.
    pub open spec fn storage_settings(&self) -> StorageConfig {
        StorageConfig {
            output_path: self.audio.recording.output_path,
            save_to_file: self.audio.recording.save_to_file,
            output_sample_rate: self.audio.recording.output_sample_rate,
            output_channels: self.audio.recording.output_channels,
            output_bits_per_sample: self.audio.recording.output_bits_per_sample,
        }
    }

    /// The transcription settings these settings call for.
    pub open spec fn transcription_settings(&self) -> TranscriptionConfig {
        TranscriptionConfig {
            language: self.audio.transcription.language,
            min_duration_millis: self.audio.transcription.min_duration_millis,
            sample_rate: self.audio.transcription.whisper_sample_rate as usize,
            model_path: self.audio.transcription.path_to_model,
        }
    }

    /// Settings to fall back on where none can be loaded.
    pub fn default() -> (config: Self)
        ensures
            config.is_default(),
    {
        AppConfig {
            audio: AudioConfig {
                recording: AudioRecordingConfig {
                    output_path: "output.wav".to_string(),
                    save_to_file: true,
                    output_sample_rate: 44100,
                    output_bits_per_sample: 16,
                    output_channels: 1,
                },
                transcription: AudioTranscriptionConfig {
                    whisper_sample_rate: 16000,
                    min_transcription_samples: 49000,
                    language: "en".to_string(),
                    min_duration_millis: 1000,
                    path_to_model: "model/ggml-tiny.en.bin".to_string(),
                },
                performance: AudioPerformanceConfig { channel_buffer_size: 16 },
            },
            commands: CommandConfig::default(),
        }
    }

    /// Settings for the recorder.
    pub fn recorder_config(&self) -> (config: RecorderConfig)
        ensures
            config == self.recorder_settings(),
    {
        RecorderConfig {
            channels: self.audio.recording.output_channels,
            sample_rate: self.audio.recording.output_sample_rate,
        }
    }

    /// Settings for the processor. They are valid whatever these settings
    /// hold.
    pub fn processor_config(&self) -> (config: ProcessorConfig)
        ensures
            config == self.processor_settings(),
            config.valid(),
    {
        let min: usize = self.audio.transcription.min_transcription_samples;
        let max: usize = if min <= usize::MAX / BUFFER_HEADROOM {
            min * BUFFER_HEADROOM
        } else {
            usize::MAX
        };
        ProcessorConfig {
            target_sample_rate: self.audio.transcription.whisper_sample_rate,
            target_channels: 1,
            source_sample_rate: self.audio.recording.output_sample_rate,
            source_channels: self.audio.recording.output_channels,
            min_samples_for_processing: min,
            max_buffer_size: max,
        }
    }

    /// Settings for the storage.
    pub fn storage_config(&self) -> (config: StorageConfig)
        ensures
            config == self.storage_settings(),
    {
        StorageConfig {
            output_path: self.audio.recording.output_path.clone(),
            save_to_file: self.audio.recording.save_to_file,
            output_sample_rate: self.audio.recording.output_sample_rate,
            output_channels: self.audio.recording.output_channels,
            output_bits_per_sample: self.audio.recording.output_bits_per_sample,
        }
    }

    /// Settings for the transcription service.
    pub fn transcription_config(&self) -> (config: TranscriptionConfig)
        ensures
            config == self.transcription_settings(),
    {
        TranscriptionConfig {
            language: self.audio.transcription.language.clone(),
            min_duration_millis: self.audio.transcription.min_duration_millis,
            sample_rate: self.audio.transcription.whisper_sample_rate as usize,
            model_path: self.audio.transcription.path_to_model.clone(),
        }
    }
}

} // verus!
