//! Runtime state and the events published to the UI layer.

use vstd::prelude::*;

verus! {

/// The single source of truth for "what can the user do now".
#[derive(Clone, Copy, Debug, PartialEq, Eq, Structural)]
pub enum RuntimeState {
    Idle,
    Recording,
    Processing,
    Ready,
}

/// A transcript notification: a partial preview while recording, a
/// "processing" marker, or the final text with its measured latency.
pub struct TranscriptEvent {
    pub partial_text: String,
    pub final_text: Option<String>,
    pub state: RuntimeState,
    pub latency_ms: Option<u64>,
}

/// A user-facing error notification.
pub struct ErrorEvent {
    pub user_message: String,
    pub details: String,
}

/// Progress of the one-time model download.
pub struct ModelDownloadEvent {
    pub progress: u8,
    pub status: String,
    pub message: String,
}

/// Warning that required external tools are missing.
pub struct DependencyWarningEvent {
    pub missing: Vec<String>,
    pub install_hint: String,
}

impl TranscriptEvent {
    /// True of the keep-alive shape: no text, no latency, just a state.
    pub open spec fn is_state_only(&self, state: RuntimeState) -> bool {
        &&& self.partial_text@.len() == 0
        &&& self.final_text is None
        &&& self.state == state
        &&& self.latency_ms is None
    }

    /// A transcript event that only reports the given state.
    pub fn state_only(state: RuntimeState) -> (ev: TranscriptEvent)
        ensures
            ev.is_state_only(state),
    {
        TranscriptEvent { partial_text: String::new(), final_text: None, state, latency_ms: None }
    }

    /// A preview event carrying a fresh partial text and its latency.
    pub fn partial(text: String, latency_ms: u64) -> (ev: TranscriptEvent)
        ensures
            ev.partial_text@ == text@,
            ev.final_text is None,
            ev.state == RuntimeState::Recording,
            ev.latency_ms == Some(latency_ms),
    {
        TranscriptEvent {
            partial_text: text,
            final_text: None,
            state: RuntimeState::Recording,
            latency_ms: Some(latency_ms),
        }
    }

    /// The closing event of a successful session: final text and latency.
    pub fn final_result(text: String, latency_ms: u64) -> (ev: TranscriptEvent)
        ensures
            ev.partial_text@.len() == 0,
            ev.final_text matches Some(t) && t@ == text@,
            ev.state == RuntimeState::Ready,
            ev.latency_ms == Some(latency_ms),
    {
        TranscriptEvent {
            partial_text: String::new(),
            final_text: Some(text),
            state: RuntimeState::Ready,
            latency_ms: Some(latency_ms),
        }
    }
}

} // verus!
