use vstd::prelude::*;

verus! {

/// Where the application stands in the record-and-transcribe cycle.
#[derive(Debug, Clone, Copy, PartialEq, Eq, Structural)]
pub enum AppState {
    Idle,
    Waiting,
    Recording,
    Transcribing,
    Error,
}

/// The lower-case name of a state, as shown in logs and sent to the overlay.
pub open spec fn app_state_name(s: AppState) -> Seq<char> {
    match s {
        AppState::Idle => "idle"@,
        AppState::Waiting => "waiting"@,
        AppState::Recording => "recording"@,
        AppState::Transcribing => "transcribing"@,
        AppState::Error => "error"@,
    }
}

impl AppState {
    /// The lower-case name of the state (its display form).
    pub fn as_str(&self) -> (r: &'static str)
        ensures
            r@ == app_state_name(*self),
    {
        match self {
            AppState::Idle => "idle",
            AppState::Waiting => "waiting",
            AppState::Recording => "recording",
            AppState::Transcribing => "transcribing",
            AppState::Error => "error",
        }
    }
}

} // verus!
