use nullamp::intent::IntentStep;
use nullamp::models::{IntentAction, IntentQuery, MusicIntent};
use nullamp::voice::{CommandOutcome, MicButton, MicStart, PanelText, VoiceState};

#[test]
fn record_without_model_reports_missing_model() {
    let mut v = VoiceState::new(true);
    assert!(!v.may_start_recording());
    assert_eq!(v.status, "Voice model not found. See settings.");
    assert!(!v.is_recording);
}

#[test]
fn record_with_model_may_start() {
    let mut v = VoiceState::new(false);
    assert!(v.may_start_recording());
    assert_eq!(v.status, "");
}

#[test]
fn microphone_outcomes_set_the_status() {
    let mut v = VoiceState::new(false);
    v.transcript = "old".to_string();
    v.recording_started(MicStart::Started);
    assert!(v.is_recording);
    assert_eq!(v.status, "Listening...");
    assert_eq!(v.transcript, "");

    let mut v = VoiceState::new(false);
    v.recording_started(MicStart::Failed("device busy".to_string()));
    assert!(!v.is_recording);
    assert_eq!(v.status, "Mic error: device busy");

    let mut v = VoiceState::new(false);
    v.recording_started(MicStart::NoMicrophone);
    assert_eq!(v.status, "No microphone available");
}

#[test]
fn stopping_without_audio_transcribes_nothing() {
    let mut v = VoiceState::new(false);
    v.recording_started(MicStart::Started);
    assert!(!v.recording_stopped(false));
    assert!(!v.is_recording);
    assert_eq!(v.status, "No audio captured");
}

#[test]
fn stopping_with_audio_transcribes() {
    let mut v = VoiceState::new(false);
    v.recording_started(MicStart::Started);
    assert!(v.recording_stopped(true));
    assert_eq!(v.status, "Transcribing...");
    assert!(v.may_transcribe(true));
    assert_eq!(v.status, "Transcribing...");
    assert!(!v.may_transcribe(false));
    assert_eq!(v.status, "Whisper model not loaded");
}

#[test]
fn transcription_recognized_locally() {
    let mut v = VoiceState::new(false);
    match v.transcription_complete("Next song".to_string(), false) {
        CommandOutcome::Recognized(i) => assert_eq!(i.action, IntentAction::Next),
        _ => panic!("expected a local intent"),
    }
    assert_eq!(v.transcript, "Next song");
    assert_eq!(v.status, "Processing intent...");
}

#[test]
fn transcription_asks_model_only_with_key() {
    let mut v = VoiceState::new(false);
    assert!(matches!(
        v.transcription_complete("something relaxing".to_string(), true),
        CommandOutcome::AskModel
    ));
    assert_eq!(v.status, "Processing intent...");
    assert!(matches!(
        v.transcription_complete("something relaxing".to_string(), false),
        CommandOutcome::Unrecognized
    ));
    assert_eq!(v.status, "No intent recognized");
    assert_eq!(v.transcript, "something relaxing");
}

#[test]
fn typed_command_keeps_status_unless_model_is_asked() {
    let mut v = VoiceState::new(false);
    v.status = "before".to_string();
    match v.text_command("play Daft Punk".to_string(), false) {
        CommandOutcome::Recognized(i) => {
            assert_eq!(i.action, IntentAction::Play);
            assert_eq!(i.query.unwrap().free_text.as_deref(), Some("daft punk"));
        }
        _ => panic!("expected a local intent"),
    }
    assert_eq!(v.status, "before");
    assert!(matches!(v.text_command("hmm".to_string(), false), CommandOutcome::Unrecognized));
    assert_eq!(v.status, "before");
    assert!(matches!(v.text_command("hmm".to_string(), true), CommandOutcome::AskModel));
    assert_eq!(v.status, "Processing intent\u{2026}");
    assert_eq!(v.transcript, "hmm");
}

#[test]
fn recognized_intent_is_described_and_planned() {
    let mut v = VoiceState::new(false);
    let intent = MusicIntent {
        action: IntentAction::Play,
        query: Some(IntentQuery { artist: Some("Queen".to_string()), ..IntentQuery::default() }),
    };
    assert!(matches!(v.intent_recognized(&intent), IntentStep::FindAndPlay));
    assert_eq!(v.status, "Playing by Queen");

    let pause = MusicIntent { action: IntentAction::Pause, query: None };
    assert!(matches!(v.intent_recognized(&pause), IntentStep::Pause));
    assert_eq!(v.status, "Paused");
}

#[test]
fn errors_stop_recording() {
    let mut v = VoiceState::new(false);
    v.recording_started(MicStart::Started);
    v.voice_error("HTTP error: 500");
    assert!(!v.is_recording);
    assert_eq!(v.status, "Error: HTTP error: 500");
    v.no_tracks_found();
    assert_eq!(v.status, "No tracks found");
    v.download_failed("timeout");
    assert_eq!(v.status, "Download failed: timeout");
}

#[test]
fn mic_button_follows_the_panel_state() {
    let missing = VoiceState::new(true);
    assert_eq!(missing.mic_button(), MicButton::Disabled);
    assert_eq!(missing.panel_text(), PanelText::ModelDescription);

    let mut v = VoiceState::new(false);
    assert_eq!(v.mic_button(), MicButton::Start);
    assert_eq!(v.panel_text(), PanelText::Hints);
    v.recording_started(MicStart::Started);
    assert_eq!(v.mic_button(), MicButton::Stop);
    assert_eq!(v.panel_text(), PanelText::Waveform);
    assert!(!v.is_busy());
    v.recording_stopped(true);
    assert!(v.is_busy());
    assert_eq!(v.mic_button(), MicButton::Busy);
    assert_eq!(v.panel_text(), PanelText::Status);
    v.transcription_complete("hmm".to_string(), true);
    assert_eq!(v.mic_button(), MicButton::Busy);
    v.intent_recognized(&MusicIntent {
        action: IntentAction::Search,
        query: Some(IntentQuery { genre: Some("jazz".to_string()), ..IntentQuery::default() }),
    });
    assert_eq!(v.status, "Searching for jazz");
    assert_eq!(v.mic_button(), MicButton::Busy);
    v.no_tracks_found();
    assert_eq!(v.mic_button(), MicButton::Start);
    assert_eq!(v.panel_text(), PanelText::Status);
}
