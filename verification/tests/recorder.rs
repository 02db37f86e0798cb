use speech_pipeline::audio::recorder::{Delivery, Recorder, RecorderConfig, RecordingState};
use speech_pipeline::channel::SendOutcome;
use tokio::sync::mpsc::channel;

#[test]
fn default_recorder_config_values() {
    let c = RecorderConfig::default();
    assert_eq!(c.channels, 1);
    assert_eq!(c.sample_rate, 44100);
}

#[test]
fn new_recorder_is_inactive() {
    let r: Recorder<f32> = Recorder::new();
    assert!(r.recording_state() == RecordingState::Inactive);
    assert!(r.should_stop());
    assert_eq!(r.config(), RecorderConfig { channels: 1, sample_rate: 44100 });
}

#[test]
fn with_config_keeps_settings() {
    let r: Recorder<f32> = Recorder::with_config(RecorderConfig { channels: 2, sample_rate: 48000 });
    assert_eq!(r.config(), RecorderConfig { channels: 2, sample_rate: 48000 });
    assert!(r.recording_state() == RecordingState::Inactive);
}

#[test]
fn start_activates_and_opens_device_once() {
    let mut r: Recorder<f32> = Recorder::new();
    let (tx, _rx) = channel::<Vec<f32>>(4);
    assert!(r.start_recording(tx));
    assert!(r.recording_state() == RecordingState::Active);
    assert!(!r.should_stop());
}

#[test]
fn second_start_is_a_noop() {
    let mut r: Recorder<f32> = Recorder::new();
    let (first, mut first_rx) = channel::<Vec<f32>>(4);
    let (second, mut second_rx) = channel::<Vec<f32>>(4);
    assert!(r.start_recording(first));
    assert!(!r.start_recording(second));
    assert!(r.recording_state() == RecordingState::Active);
    assert_eq!(r.deliver(&[1.0, 2.0]), Delivery::Sent);
    assert_eq!(first_rx.try_recv().ok(), Some(vec![1.0, 2.0]));
    assert!(second_rx.try_recv().is_err());
}

#[test]
fn stop_without_start_is_a_noop() {
    let mut r: Recorder<f32> = Recorder::new();
    assert!(!r.stop_recording());
    assert!(r.recording_state() == RecordingState::Inactive);
}

#[test]
fn stop_requests_then_reset_releases() {
    let mut r: Recorder<f32> = Recorder::new();
    let (tx, mut rx) = channel::<Vec<f32>>(4);
    assert!(r.start_recording(tx));
    assert!(r.stop_recording());
    assert!(r.recording_state() == RecordingState::StopRequested);
    assert!(r.should_stop());
    assert!(!r.stop_recording());
    assert!(r.recording_state() == RecordingState::StopRequested);
    r.reset();
    assert!(r.recording_state() == RecordingState::Inactive);
    assert!(matches!(
        rx.try_recv(),
        Err(tokio::sync::mpsc::error::TryRecvError::Disconnected)
    ));
}

#[test]
fn start_after_stop_request_activates_again() {
    let mut r: Recorder<f32> = Recorder::new();
    let (tx, _rx) = channel::<Vec<f32>>(4);
    assert!(r.start_recording(tx));
    assert!(r.stop_recording());
    let (tx2, mut rx2) = channel::<Vec<f32>>(4);
    assert!(r.start_recording(tx2));
    assert!(r.recording_state() == RecordingState::Active);
    assert_eq!(r.deliver(&[7.0]), Delivery::Sent);
    assert_eq!(rx2.try_recv().ok(), Some(vec![7.0]));
}

#[test]
fn blocks_are_ignored_while_inactive() {
    let r: Recorder<f32> = Recorder::new();
    assert_eq!(r.deliver(&[0.5; 8]), Delivery::Ignored);
}

#[test]
fn blocks_are_ignored_after_stop_request() {
    let mut r: Recorder<f32> = Recorder::new();
    let (tx, mut rx) = channel::<Vec<f32>>(4);
    r.start_recording(tx);
    r.stop_recording();
    assert_eq!(r.deliver(&[0.5; 8]), Delivery::Ignored);
    assert!(rx.try_recv().is_err());
}

#[test]
fn blocks_arrive_in_order() {
    let mut r: Recorder<f32> = Recorder::new();
    let (tx, mut rx) = channel::<Vec<f32>>(4);
    r.start_recording(tx);
    assert_eq!(r.deliver(&[1.0]), Delivery::Sent);
    assert_eq!(r.deliver(&[2.0, 3.0]), Delivery::Sent);
    assert_eq!(rx.try_recv().ok(), Some(vec![1.0]));
    assert_eq!(rx.try_recv().ok(), Some(vec![2.0, 3.0]));
    assert!(rx.try_recv().is_err());
}

#[test]
fn full_channel_drops_newest_block() {
    let mut r: Recorder<f32> = Recorder::new();
    let (tx, mut rx) = channel::<Vec<f32>>(1);
    r.start_recording(tx);
    assert_eq!(r.deliver(&[1.0]), Delivery::Sent);
    assert_eq!(r.deliver(&[2.0]), Delivery::DroppedFull);
    assert_eq!(r.deliver(&[3.0]), Delivery::DroppedFull);
    assert_eq!(rx.try_recv().ok(), Some(vec![1.0]));
    assert!(rx.try_recv().is_err());
    assert_eq!(r.deliver(&[4.0]), Delivery::Sent);
    assert_eq!(rx.try_recv().ok(), Some(vec![4.0]));
    assert!(r.recording_state() == RecordingState::Active);
}

#[test]
fn closed_channel_drops_block() {
    let mut r: Recorder<f32> = Recorder::new();
    let (tx, rx) = channel::<Vec<f32>>(2);
    r.start_recording(tx);
    drop(rx);
    assert_eq!(r.deliver(&[1.0]), Delivery::DroppedClosed);
    assert!(r.recording_state() == RecordingState::Active);
}

#[test]
fn delivery_of_each_send_outcome() {
    assert_eq!(Delivery::from_outcome(SendOutcome::Sent), Delivery::Sent);
    assert_eq!(Delivery::from_outcome(SendOutcome::Full), Delivery::DroppedFull);
    assert_eq!(Delivery::from_outcome(SendOutcome::Closed), Delivery::DroppedClosed);
}
