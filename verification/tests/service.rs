use speech_pipeline::transcription::service::{TranscriptionConfig, TranscriptionService};
use speech_pipeline::transcription::whisper::{
    Engine, EngineCall, SkipReason, MIN_AUDIO_DURATION_MILLIS, MIN_SAMPLES, SAMPLE_RATE,
};

fn service(millis: u64, rate: usize) -> TranscriptionService {
    let mut s = TranscriptionService::with_config(TranscriptionConfig {
        language: "en".to_string(),
        min_duration_millis: millis,
        sample_rate: rate,
        model_path: "model.bin".to_string(),
    });
    assert_eq!(s.initialize(Ok(())), Ok(()));
    s
}

#[test]
fn default_transcription_config_values() {
    let c = TranscriptionConfig::default();
    assert_eq!(c.language, "en");
    assert_eq!(c.min_duration_millis, 1000);
    assert_eq!(c.sample_rate, 16000);
    assert_eq!(c.model_path, "model/ggml-tiny.en.bin");
}

#[test]
fn clone_copies_every_field() {
    let c = TranscriptionConfig {
        language: "de".to_string(),
        min_duration_millis: 250,
        sample_rate: 8000,
        model_path: "m".to_string(),
    };
    let d = c.clone();
    assert_eq!(d.language, "de");
    assert_eq!(d.min_duration_millis, 250);
    assert_eq!(d.sample_rate, 8000);
    assert_eq!(d.model_path, "m");
}

#[test]
fn new_service_is_uninitialized_with_defaults() {
    let s = TranscriptionService::new();
    assert!(!s.is_initialized());
    assert_eq!(s.config().sample_rate, 16000);
    assert_eq!(s.config().min_duration_millis, 1000);
}

#[test]
fn half_a_second_is_skipped() {
    let s = service(1000, 16000);
    let samples = vec![0.3f32; 8000];
    assert_eq!(s.transcribe(&samples), EngineCall::Skip(SkipReason::TooShort));
}

#[test]
fn short_input_is_skipped_whatever_it_holds() {
    let s = service(1000, 16000);
    assert_eq!(s.transcribe(&vec![1.0f32; 15999]), EngineCall::Skip(SkipReason::TooShort));
    assert_eq!(s.transcribe(&vec![f32::NAN; 15999]), EngineCall::Skip(SkipReason::TooShort));
    assert_eq!(s.transcribe::<f32>(&[]), EngineCall::Skip(SkipReason::TooShort));
}

#[test]
fn one_second_reaches_the_engine() {
    let s = service(1000, 16000);
    assert_eq!(s.transcribe(&vec![0.0f32; 16000]), EngineCall::Run);
    assert_eq!(s.transcribe(&vec![0.0f32; 16001]), EngineCall::Run);
}

#[test]
fn uninitialized_service_never_runs_the_engine() {
    let s = TranscriptionService::new();
    assert_eq!(
        s.transcribe(&vec![0.0f32; 16000]),
        EngineCall::Skip(SkipReason::NotInitialized)
    );
    assert_eq!(s.transcribe(&vec![0.0f32; 10]), EngineCall::Skip(SkipReason::TooShort));
}

#[test]
fn failed_load_is_handed_back_and_leaves_service_unready() {
    let mut s = TranscriptionService::new();
    assert_eq!(
        s.initialize(Err("Failed to create Whisper context".to_string())),
        Err("Failed to create Whisper context".to_string())
    );
    assert!(!s.is_initialized());
    assert_eq!(s.initialize(Ok(())), Ok(()));
    assert!(s.is_initialized());
    assert!(s.initialize(Err("again".to_string())).is_err());
    assert!(s.is_initialized());
}

#[test]
fn minimum_is_duration_times_rate() {
    let s = service(700, 16000);
    assert!(!s.is_long_enough(11199));
    assert!(s.is_long_enough(11200));
    let s = service(1500, 44100);
    assert!(!s.is_long_enough(66149));
    assert!(s.is_long_enough(66150));
    let s = service(1, 999);
    assert!(s.is_long_enough(0));
    let s = service(1, 1000);
    assert!(!s.is_long_enough(0));
    assert!(s.is_long_enough(1));
}

#[test]
fn zero_duration_lets_every_length_pass_the_service() {
    let s = service(0, 16000);
    assert!(s.is_long_enough(0));
    assert_eq!(s.transcribe::<f32>(&[]), EngineCall::Skip(SkipReason::TooShort));
    assert_eq!(s.transcribe(&vec![0.0f32; 16000]), EngineCall::Run);
}

#[test]
fn huge_minimum_does_not_overflow() {
    let s = service(u64::MAX, usize::MAX);
    assert!(!s.is_long_enough(usize::MAX));
    assert_eq!(
        s.transcribe(&vec![0u8; 20000]),
        EngineCall::Skip(SkipReason::TooShort)
    );
}

#[test]
fn long_minimum_overrides_engine_minimum() {
    let s = service(2000, 16000);
    assert_eq!(s.transcribe(&vec![0.0f32; 16000]), EngineCall::Skip(SkipReason::TooShort));
    assert_eq!(s.transcribe(&vec![0.0f32; 32000]), EngineCall::Run);
}

#[test]
fn engine_constants() {
    assert_eq!(SAMPLE_RATE, 16000);
    assert_eq!(MIN_AUDIO_DURATION_MILLIS, 1000);
    assert_eq!(MIN_SAMPLES, 16000);
}

#[test]
fn engine_skips_short_audio_before_checking_readiness() {
    let e = Engine::new();
    assert!(!e.ready);
    assert_eq!(e.transcribe(15999), EngineCall::Skip(SkipReason::TooShort));
    assert_eq!(e.transcribe(16000), EngineCall::Skip(SkipReason::NotInitialized));
}

#[test]
fn engine_runs_once_loaded() {
    let mut e = Engine::new();
    assert_eq!(e.init(Err("no model".to_string())), Err("no model".to_string()));
    assert!(!e.ready);
    assert_eq!(e.init(Ok(())), Ok(()));
    assert!(e.ready);
    assert_eq!(e.transcribe(16000), EngineCall::Run);
    assert_eq!(e.transcribe(0), EngineCall::Skip(SkipReason::TooShort));
}
