use vstd::prelude::*;

use crate::hotkey::HotkeyEvent;
use crate::punctuation::{fix_punctuation, fix_punctuation_spec, is_ending_punctuation_spec};
use crate::state::AppState;
use crate::text::lemma_trim_has_no_trailing_whitespace;
use crate::transcript::{filter_hallucinations, filter_hallucinations_spec};

verus! {

/// What the application does in answer to a hotkey event.
#[derive(Debug, Clone, Copy, PartialEq, Eq, Structural)]
pub enum KeyAction {
    /// Nothing to do in the current state.
    Ignore,
    /// The speech model is still loading: tell the user to try again later.
    ModelNotReady,
    /// Show the overlay and start the recorder.
    StartRecording,
    /// Invalidate the recording timer, stop the recorder and transcribe what it holds.
    StopAndTranscribe,
    /// Stop the recorder, drop what it holds and hide the overlay.
    Discard,
}

/// A recording is under way or about to start.
pub open spec fn is_capturing(state: AppState) -> bool {
    state == AppState::Recording || state == AppState::Waiting
}

/// A new recording may start: nothing is under way, or the last attempt ended in an
/// error that has been reported.
pub open spec fn ready_to_record(state: AppState) -> bool {
    state == AppState::Idle || state == AppState::Error
}

/// The next state and the action for a hotkey event.
pub open spec fn hotkey_transition(state: AppState, event: HotkeyEvent, model_ready: bool) -> (
    AppState,
    KeyAction,
) {
    match event {
        HotkeyEvent::Pressed => if !ready_to_record(state) {
            (state, KeyAction::Ignore)
        } else if !model_ready {
            (state, KeyAction::ModelNotReady)
        } else {
            (AppState::Waiting, KeyAction::StartRecording)
        },
        HotkeyEvent::Released => if is_capturing(state) {
            (state, KeyAction::StopAndTranscribe)
        } else {
            (state, KeyAction::Ignore)
        },
        HotkeyEvent::Cancelled => if is_capturing(state) {
            (AppState::Idle, KeyAction::Discard)
        } else {
            (state, KeyAction::Ignore)
        },
    }
}

/// Decides what a hotkey event does in `state`; `model_ready` tells whether the speech
/// model is loaded.
pub fn on_hotkey(state: AppState, event: HotkeyEvent, model_ready: bool) -> (r: (
    AppState,
    KeyAction,
))
    ensures
        r == hotkey_transition(state, event, model_ready),
        // a press starts a recording from idle or a reported error when the model is
        // loaded, asks to wait when it is not, and is ignored otherwise
        event == HotkeyEvent::Pressed && (state == AppState::Idle || state == AppState::Error)
            && model_ready ==> r == (AppState::Waiting, KeyAction::StartRecording),
        event == HotkeyEvent::Pressed && (state == AppState::Idle || state == AppState::Error)
            && !model_ready ==> r == (state, KeyAction::ModelNotReady),
        event == HotkeyEvent::Pressed && !(state == AppState::Idle || state == AppState::Error)
            ==> r == (state, KeyAction::Ignore),
        // a valid release while recording (or about to) stops and transcribes
        event == HotkeyEvent::Released && (state == AppState::Recording || state
            == AppState::Waiting) ==> r == (state, KeyAction::StopAndTranscribe),
        // a cancellation while recording (or about to) discards and returns to idle
        event == HotkeyEvent::Cancelled && (state == AppState::Recording || state
            == AppState::Waiting) ==> r == (AppState::Idle, KeyAction::Discard),
        // releases and cancellations outside a recording are ignored
        event != HotkeyEvent::Pressed && !(state == AppState::Recording || state
            == AppState::Waiting) ==> r == (state, KeyAction::Ignore),
{
    match event {
        HotkeyEvent::Pressed => {
            if state != AppState::Idle && state != AppState::Error {
                (state, KeyAction::Ignore)
            } else if !model_ready {
                (state, KeyAction::ModelNotReady)
            } else {
                (AppState::Waiting, KeyAction::StartRecording)
            }
        },
        HotkeyEvent::Released => {
            if state == AppState::Recording || state == AppState::Waiting {
                (state, KeyAction::StopAndTranscribe)
            } else {
                (state, KeyAction::Ignore)
            }
        },
        HotkeyEvent::Cancelled => {
            if state == AppState::Recording || state == AppState::Waiting {
                (AppState::Idle, KeyAction::Discard)
            } else {
                (state, KeyAction::Ignore)
            }
        },
    }
}

/// The state once the recorder has been asked to start: recording when it started,
/// the error state when it failed.
pub fn on_recorder_start(started: bool) -> (r: AppState)
    ensures
        r == (if started {
            AppState::Recording
        } else {
            AppState::Error
        }),
{
    if started {
        AppState::Recording
    } else {
        AppState::Error
    }
}

/// Whether the recording timer of session `session_id` stops the recording: only while
/// that session is still the current one and the application is recording.
pub fn timeout_fires(current_session: u64, session_id: u64, state: AppState) -> (r: bool)
    ensures
        r == (current_session == session_id && state == AppState::Recording),
{
    current_session == session_id && state == AppState::Recording
}

/// Length in milliseconds of `num_samples` samples at `sample_rate` Hz, rounded down.
pub fn recording_duration_ms(num_samples: u64, sample_rate: u32) -> (r: u64)
    requires
        sample_rate > 0,
        num_samples * 1000 <= u64::MAX,
    ensures
        r == (num_samples * 1000) / (sample_rate as int),
        // whole milliseconds, rounded down
        r * sample_rate <= num_samples * 1000 < (r + 1) * sample_rate,
{
    proof {
        let q = (num_samples * 1000) / (sample_rate as int);
        assert(q * sample_rate <= num_samples * 1000 < (q + 1) * sample_rate) by (nonlinear_arith)
            requires
                q == (num_samples * 1000) / (sample_rate as int),
                sample_rate > 0,
        ;
    }
    (num_samples * 1000) / (sample_rate as u64)
}

/// What becomes of a finished recording.
#[derive(Debug, Clone, Copy, PartialEq, Eq, Structural)]
pub enum RecordingVerdict {
    /// Shorter than the minimum duration: back to idle.
    TooShort,
    /// No sample reached the voice threshold: report it.
    NoVoice,
    /// Send it to the speech model.
    Transcribe,
}

/// The verdict on a recording and the state it leads to.
pub open spec fn recording_verdict(
    num_samples: u64,
    sample_rate: u32,
    min_duration_ms: u64,
    voice_detected: bool,
) -> (AppState, RecordingVerdict) {
    if (num_samples * 1000) / (sample_rate as int) < min_duration_ms {
        (AppState::Idle, RecordingVerdict::TooShort)
    } else if !voice_detected {
        (AppState::Error, RecordingVerdict::NoVoice)
    } else {
        (AppState::Transcribing, RecordingVerdict::Transcribe)
    }
}

/// Judges a finished recording of `num_samples` samples at `sample_rate` Hz;
/// `voice_detected` tells whether some sample reached the voice threshold.
pub fn assess_recording(
    num_samples: u64,
    sample_rate: u32,
    min_duration_ms: u64,
    voice_detected: bool,
) -> (r: (AppState, RecordingVerdict))
    requires
        sample_rate > 0,
        num_samples * 1000 <= u64::MAX,
    ensures
        r == recording_verdict(num_samples, sample_rate, min_duration_ms, voice_detected),
        // too short: fewer whole milliseconds than the minimum; back to idle
        r.1 == RecordingVerdict::TooShort <==> (num_samples * 1000) / (sample_rate as int)
            < min_duration_ms,
        r.1 == RecordingVerdict::TooShort ==> r.0 == AppState::Idle,
        // long enough but silent: reported as an error
        r.1 == RecordingVerdict::NoVoice <==> ((num_samples * 1000) / (sample_rate as int)
            >= min_duration_ms && !voice_detected),
        r.1 == RecordingVerdict::NoVoice ==> r.0 == AppState::Error,
        // long enough with a voice: transcribed
        r.1 == RecordingVerdict::Transcribe <==> ((num_samples * 1000) / (sample_rate as int)
            >= min_duration_ms && voice_detected),
        r.1 == RecordingVerdict::Transcribe ==> r.0 == AppState::Transcribing,
{
    let duration_ms = recording_duration_ms(num_samples, sample_rate);
    if duration_ms < min_duration_ms {
        (AppState::Idle, RecordingVerdict::TooShort)
    } else if !voice_detected {
        (AppState::Error, RecordingVerdict::NoVoice)
    } else {
        (AppState::Transcribing, RecordingVerdict::Transcribe)
    }
}

/// What becomes of the speech model's text.
#[derive(Debug, Clone)]
pub enum TranscriptOutcome {
    /// Nothing usable was recognised.
    Discarded,
    /// The text to show and copy to the clipboard.
    Deliver(String),
}

/// Turns the speech model's raw text into the text handed to the user: hallucinations
/// are dropped, the rest is trimmed and its punctuation fixed.
pub fn finish_transcription(raw: &str) -> (r: TranscriptOutcome)
    ensures
        match r {
            TranscriptOutcome::Discarded => filter_hallucinations_spec(raw@).len() == 0,
            TranscriptOutcome::Deliver(text) => {
                &&& filter_hallucinations_spec(raw@).len() > 0
                &&& text@ == fix_punctuation_spec(filter_hallucinations_spec(raw@))
                &&& text@.len() > 0
                &&& is_ending_punctuation_spec(text@.last())
            },
        },
{
    let filtered = filter_hallucinations(raw);
    if filtered.as_str().is_empty() {
        return TranscriptOutcome::Discarded;
    }
    proof {
        lemma_trim_has_no_trailing_whitespace(raw@);
    }
    let text = fix_punctuation(filtered.as_str());
    TranscriptOutcome::Deliver(text)
}

/// What each hotkey event does in each state: presses start a recording from idle or
/// error (or ask to wait for the model), releases and cancellations act only while a
/// recording is under way or about to start.
pub proof fn lemma_hotkey_table(state: AppState, event: HotkeyEvent, model_ready: bool)
    ensures
        // a press starts a recording from idle or a reported error when the model is
        // loaded, asks to wait when it is not, and is ignored otherwise
        event == HotkeyEvent::Pressed && (state == AppState::Idle || state == AppState::Error)
            && model_ready ==> hotkey_transition(state, event, model_ready) == (AppState::Waiting, KeyAction::StartRecording),
        event == HotkeyEvent::Pressed && (state == AppState::Idle || state == AppState::Error)
            && !model_ready ==> hotkey_transition(state, event, model_ready) == (state, KeyAction::ModelNotReady),
        event == HotkeyEvent::Pressed && !(state == AppState::Idle || state == AppState::Error)
            ==> hotkey_transition(state, event, model_ready) == (state, KeyAction::Ignore),
        // a valid release while recording (or about to) stops and transcribes
        event == HotkeyEvent::Released && (state == AppState::Recording || state
            == AppState::Waiting) ==> hotkey_transition(state, event, model_ready) == (state, KeyAction::StopAndTranscribe),
        // a cancellation while recording (or about to) discards and returns to idle
        event == HotkeyEvent::Cancelled && (state == AppState::Recording || state
            == AppState::Waiting) ==> hotkey_transition(state, event, model_ready) == (AppState::Idle, KeyAction::Discard),
        // releases and cancellations outside a recording are ignored
        event != HotkeyEvent::Pressed && !(state == AppState::Recording || state
            == AppState::Waiting) ==> hotkey_transition(state, event, model_ready) == (state, KeyAction::Ignore),
{
}

/// An error does not stick: once reported, the next press with the model loaded
/// starts a recording, as from idle.
pub proof fn lemma_error_state_records_again(model_ready: bool)
    ensures
        hotkey_transition(AppState::Error, HotkeyEvent::Pressed, model_ready).1
            == hotkey_transition(AppState::Idle, HotkeyEvent::Pressed, model_ready).1,
        model_ready ==> hotkey_transition(AppState::Error, HotkeyEvent::Pressed, model_ready) == (
        AppState::Waiting, KeyAction::StartRecording),
{
}

/// A recording starts only from the idle or error state with the model loaded, and only a
/// cancellation of a recording under way returns to idle; every other event leaves the
/// state as it is.
pub proof fn lemma_hotkey_state_changes(state: AppState, event: HotkeyEvent, model_ready: bool)
    ensures
        ({
            let (next, action) = hotkey_transition(state, event, model_ready);
            &&& action == KeyAction::StartRecording <==> (ready_to_record(state) && model_ready
                && event == HotkeyEvent::Pressed)
            &&& action == KeyAction::StartRecording ==> next == AppState::Waiting
            &&& action == KeyAction::Discard ==> next == AppState::Idle && is_capturing(state)
            &&& action != KeyAction::StartRecording && action != KeyAction::Discard ==> next
                == state
        }),
{
}

} // verus!
