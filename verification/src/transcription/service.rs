//! The transcription service: a minimum duration in front of the engine.

use crate::transcription::whisper::{samples_in, Engine, EngineCall, SkipReason};
use vstd::prelude::*;

verus! {

/// Settings of a [`TranscriptionService`].
#[derive(Clone, Debug)]
pub struct TranscriptionConfig {
    /// Language to transcribe.
    pub language: String,
    /// Shortest segment worth transcribing, in milliseconds.
    pub min_duration_millis: u64,
    /// Sample rate of the segments, in samples per second.
    pub sample_rate: usize,
    /// Where the engine's model lies.
    pub model_path: String,
}

impl TranscriptionConfig {
    /// Number of samples a segment must have, rounded down.
    pub open spec fn min_samples(&self) -> nat {
        samples_in(self.min_duration_millis, self.sample_rate)
    }

    /// The settings that `default` gives: English, one second at 16 kHz.
    pub open spec fn is_default(&self) -> bool {
        &&& self.language@ == "en"@
        &&& self.min_duration_millis == 1000
        &&& self.sample_rate == 16000
        &&& self.model_path@ == "model/ggml-tiny.en.bin"@
    }
}

impl Default for TranscriptionConfig {
    fn default() -> (config: Self)
        ensures
            config.is_default(),
    {
        TranscriptionConfig {
            language: "en".to_string(),
            min_duration_millis: 1000,
            sample_rate: 16000,
            model_path: "model/ggml-tiny.en.bin".to_string(),
        }
    }
}

/// Decides which segments reach the speech engine.
pub struct TranscriptionService {
    config: TranscriptionConfig,
    engine: Engine,
}

impl TranscriptionService {
    /// The settings the service was made with.
    pub closed spec fn settings(&self) -> TranscriptionConfig {
        self.config
    }

    /// Whether the engine has been loaded.
    pub closed spec fn initialized(&self) -> bool {
        self.engine.ready
    }

    /// The decision for a segment of `sample_count` samples: skipped as too
    /// short below the configured minimum, otherwise what the engine's own
    /// rule says.
    pub open spec fn call_for(&self, sample_count: nat) -> EngineCall {
        if sample_count < self.settings().min_samples() {
            EngineCall::Skip(SkipReason::TooShort)
        } else {
            Engine::call_for(self.initialized(), sample_count)
        }
    }

    /// A service with the default settings, not yet initialized.
    pub fn new() -> (service: Self)
        ensures
            service.settings().is_default(),
            !service.initialized(),
    {
        Self::with_config(TranscriptionConfig::default())
    }

    /// A service with the given settings, not yet initialized.
    pub fn with_config(config: TranscriptionConfig) -> (service: Self)
        ensures
            service.settings() == config,
            !service.initialized(),
    {
        TranscriptionService { config, engine: Engine::new() }
    }

    /// The settings the service was made with.
    pub fn config(&self) -> (config: &TranscriptionConfig)
        ensures
            *config == self.settings(),
    {
        &self.config
    }

    /// Whether the engine has been loaded.
    pub fn is_initialized(&self) -> (ready: bool)
        ensures
            ready == self.initialized(),
    {
        self.engine.ready
    }

    /// Records the result of loading the engine from `config().model_path`
    /// and hands it back. Until a load has succeeded no segment is handed to
    /// the engine.
    pub fn initialize(&mut self, loaded: Result<(), String>) -> (result: Result<(), String>)
        ensures
            result == loaded,
            final(self).settings() == old(self).settings(),
            final(self).initialized() == (old(self).initialized() || loaded is Ok),
    {
        self.engine.init(loaded)
    }

    /// Tells whether `sample_count` samples reach the configured minimum
    /// duration.
    pub fn is_long_enough(&self, sample_count: usize) -> (enough: bool)
        ensures
            enough == (sample_count >= self.settings().min_samples()),
    {
        let millis: u128 = self.config.min_duration_millis as u128;
        let rate: u128 = self.config.sample_rate as u128;
        assert(millis * rate <= u128::MAX) by (nonlinear_arith)
            requires
                0 <= millis <= 0xffff_ffff_ffff_ffff,
                0 <= rate <= 0xffff_ffff_ffff_ffff,
        ;
        let needed: u128 = millis * rate / 1000;
        sample_count as u128 >= needed
    }

    /// Decides whether the engine is called on `samples`.
    ///
    /// A segment shorter than the configured minimum duration is skipped
    /// whatever it holds, and so is one that the engine would not take.
    pub fn transcribe<S>(&self, samples: &[S]) -> (call: EngineCall)
        ensures
            call == self.call_for(samples@.len()),
            samples@.len() < self.settings().min_samples() ==> call == EngineCall::Skip(
                SkipReason::TooShort,
            ),
    {
        if !self.is_long_enough(samples.len()) {
            return EngineCall::Skip(SkipReason::TooShort);
        }
        self.engine.transcribe(samples.len())
    }
}

} // verus!
