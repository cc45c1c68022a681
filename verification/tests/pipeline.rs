use voiceinput::hotkey::HotkeyEvent;
use voiceinput::pipeline::{
    assess_recording, finish_transcription, on_hotkey, on_recorder_start, recording_duration_ms,
    timeout_fires, KeyAction, RecordingVerdict, TranscriptOutcome,
};
use voiceinput::state::AppState;

#[test]
fn press_starts_recording_only_when_idle_and_ready() {
    assert_eq!(
        on_hotkey(AppState::Idle, HotkeyEvent::Pressed, true),
        (AppState::Waiting, KeyAction::StartRecording)
    );
    assert_eq!(
        on_hotkey(AppState::Idle, HotkeyEvent::Pressed, false),
        (AppState::Idle, KeyAction::ModelNotReady)
    );
    assert_eq!(
        on_hotkey(AppState::Recording, HotkeyEvent::Pressed, true),
        (AppState::Recording, KeyAction::Ignore)
    );
}

#[test]
fn release_and_cancel_while_capturing() {
    assert_eq!(
        on_hotkey(AppState::Recording, HotkeyEvent::Released, true),
        (AppState::Recording, KeyAction::StopAndTranscribe)
    );
    assert_eq!(
        on_hotkey(AppState::Waiting, HotkeyEvent::Cancelled, true),
        (AppState::Idle, KeyAction::Discard)
    );
    assert_eq!(
        on_hotkey(AppState::Transcribing, HotkeyEvent::Released, true),
        (AppState::Transcribing, KeyAction::Ignore)
    );
}

#[test]
fn error_state_records_again_on_press() {
    assert_eq!(
        on_hotkey(AppState::Error, HotkeyEvent::Pressed, true),
        (AppState::Waiting, KeyAction::StartRecording)
    );
    assert_eq!(
        on_hotkey(AppState::Error, HotkeyEvent::Pressed, false),
        (AppState::Error, KeyAction::ModelNotReady)
    );
    assert_eq!(
        on_hotkey(AppState::Error, HotkeyEvent::Released, true),
        (AppState::Error, KeyAction::Ignore)
    );
    assert_eq!(
        on_hotkey(AppState::Error, HotkeyEvent::Cancelled, true),
        (AppState::Error, KeyAction::Ignore)
    );
}

#[test]
fn recorder_start_result() {
    assert_eq!(on_recorder_start(true), AppState::Recording);
    assert_eq!(on_recorder_start(false), AppState::Error);
}

#[test]
fn timer_only_for_current_recording() {
    assert!(timeout_fires(3, 3, AppState::Recording));
    assert!(!timeout_fires(4, 3, AppState::Recording));
    assert!(!timeout_fires(3, 3, AppState::Transcribing));
}

#[test]
fn recording_duration() {
    assert_eq!(recording_duration_ms(16000, 16000), 1000);
    assert_eq!(recording_duration_ms(7999, 16000), 499);
}

#[test]
fn recording_verdicts() {
    assert_eq!(
        assess_recording(7999, 16000, 500, true),
        (AppState::Idle, RecordingVerdict::TooShort)
    );
    assert_eq!(
        assess_recording(8000, 16000, 500, false),
        (AppState::Error, RecordingVerdict::NoVoice)
    );
    assert_eq!(
        assess_recording(8000, 16000, 500, true),
        (AppState::Transcribing, RecordingVerdict::Transcribe)
    );
}

#[test]
fn transcription_outcomes() {
    match finish_transcription("  你好,世界 ") {
        TranscriptOutcome::Deliver(t) => assert_eq!(t, "你好，世界。"),
        TranscriptOutcome::Discarded => panic!("expected text"),
    }
    assert!(matches!(finish_transcription("[BLANK_AUDIO]"), TranscriptOutcome::Discarded));
    assert!(matches!(finish_transcription("  "), TranscriptOutcome::Discarded));
}

#[test]
fn state_names() {
    assert_eq!(AppState::Idle.as_str(), "idle");
    assert_eq!(AppState::Waiting.as_str(), "waiting");
    assert_eq!(AppState::Recording.as_str(), "recording");
    assert_eq!(AppState::Transcribing.as_str(), "transcribing");
    assert_eq!(AppState::Error.as_str(), "error");
}

#[test]
fn delivered_text_is_closed() {
    for raw in ["你在哪里", "ok then", " 今天天气很好,我们走 "] {
        match finish_transcription(raw) {
            TranscriptOutcome::Deliver(t) => {
                let last = t.chars().last().unwrap();
                assert!(['.', '。', '?', '？'].contains(&last), "{t}");
            }
            TranscriptOutcome::Discarded => panic!("expected text for {raw}"),
        }
    }
}
