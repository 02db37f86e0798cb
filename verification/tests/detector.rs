use speech_pipeline::command::detector::{CommandDetector, CommandDetectorConfig};

fn name_of(detector: &CommandDetector, text: &str) -> Option<String> {
    detector.detect(text).map(|command| {
        assert!(command.parameters.is_empty());
        command.name
    })
}

#[test]
fn default_detector_config_values() {
    let c = CommandDetectorConfig::default();
    assert_eq!(c.trigger_word, "hey computer");
    assert_eq!(c.min_confidence_percent, 70);
    let d = CommandDetector::new();
    assert_eq!(d.config().trigger_word, "hey computer");
}

#[test]
fn nothing_is_detected_without_trigger() {
    let d = CommandDetector::new();
    assert_eq!(name_of(&d, "please make it louder"), None);
    assert_eq!(name_of(&d, ""), None);
}

#[test]
fn trigger_alone_detects_nothing() {
    let d = CommandDetector::new();
    assert_eq!(name_of(&d, "hey computer, how are you"), None);
}

#[test]
fn default_commands_are_detected() {
    let d = CommandDetector::new();
    assert_eq!(name_of(&d, "hey computer louder"), Some("volume up".to_string()));
    assert_eq!(name_of(&d, "hey computer, increase volume"), Some("volume up".to_string()));
    assert_eq!(name_of(&d, "turn it up, hey computer"), Some("volume up".to_string()));
    assert_eq!(name_of(&d, "hey computer quieter"), Some("volume down".to_string()));
    assert_eq!(name_of(&d, "hey computer decrease volume"), Some("volume down".to_string()));
    assert_eq!(name_of(&d, "hey computer turn it down"), Some("volume down".to_string()));
}

#[test]
fn command_name_alone_is_no_phrase() {
    let d = CommandDetector::new();
    assert_eq!(name_of(&d, "hey computer volume up"), None);
}

#[test]
fn letter_case_is_ignored() {
    let d = CommandDetector::new();
    assert_eq!(name_of(&d, "HEY COMPUTER, LOUDER!"), Some("volume up".to_string()));
    let d = CommandDetector::with_config(CommandDetectorConfig {
        trigger_word: "OK Box".to_string(),
        min_confidence_percent: 50,
    });
    assert_eq!(name_of(&d, "ok box quieter"), Some("volume down".to_string()));
    assert_eq!(name_of(&d, "hey computer quieter"), None);
}

#[test]
fn lowercase_is_applied_to_registered_phrases() {
    let mut d = CommandDetector::new();
    d.register_command("mute", vec!["Be QUIET", "\u{c4}RGER"]);
    assert_eq!(name_of(&d, "hey computer be quiet"), Some("mute".to_string()));
    assert_eq!(name_of(&d, "hey computer \u{e4}rger"), Some("mute".to_string()));
}

#[test]
fn earlier_registration_wins() {
    let d = CommandDetector::new();
    assert_eq!(
        name_of(&d, "hey computer quieter and then louder"),
        Some("volume up".to_string())
    );
}

#[test]
fn registered_command_is_detected() {
    let mut d = CommandDetector::new();
    d.register_command("pause", vec!["hold on", "wait"]);
    assert_eq!(name_of(&d, "hey computer wait a moment"), Some("pause".to_string()));
    assert_eq!(name_of(&d, "hey computer hold on"), Some("pause".to_string()));
    assert_eq!(name_of(&d, "hey computer louder, wait"), Some("volume up".to_string()));
}

#[test]
fn registering_again_replaces_phrases_in_place() {
    let mut d = CommandDetector::new();
    d.register_command("volume up", vec!["crank it"]);
    assert_eq!(name_of(&d, "hey computer louder"), None);
    assert_eq!(name_of(&d, "hey computer crank it"), Some("volume up".to_string()));
    assert_eq!(
        name_of(&d, "hey computer quieter, crank it"),
        Some("volume up".to_string())
    );
}

#[test]
fn command_without_phrases_never_matches() {
    let mut d = CommandDetector::new();
    d.register_command("volume up", Vec::new());
    assert_eq!(name_of(&d, "hey computer louder"), None);
    assert_eq!(name_of(&d, "hey computer quieter"), Some("volume down".to_string()));
}

#[test]
fn empty_phrase_matches_any_text_with_trigger() {
    let mut d = CommandDetector::new();
    d.register_command("anything", vec![""]);
    assert_eq!(name_of(&d, "hey computer"), Some("anything".to_string()));
    assert_eq!(name_of(&d, "hello"), None);
}

#[test]
fn empty_trigger_occurs_in_every_text() {
    let d = CommandDetector::with_config(CommandDetectorConfig {
        trigger_word: String::new(),
        min_confidence_percent: 70,
    });
    assert_eq!(name_of(&d, "louder"), Some("volume up".to_string()));
    assert_eq!(name_of(&d, ""), None);
}
