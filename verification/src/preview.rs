//! The partial-preview loop run while recording: a self-adjusting timer
//! whose ticks either exit, keep the UI alive, or ask for a partial
//! transcription, plus the handling of each partial result.
//!
//! Waiting out the interval and calling the transcription backend is
//! outside work; the loop's decisions live here.

use vstd::prelude::*;

use crate::state::RuntimeState;
use crate::state::TranscriptEvent;

verus! {

/// The default spacing of preview ticks.
pub const BASE_TICK_MS: u64 = 250;

/// The widened spacing used as cheap backpressure.
pub const SLOW_TICK_MS: u64 = 400;

/// A partial call slower than this widens the next tick.
pub const SLOW_CALL_THRESHOLD_MS: u64 = 300;

/// The loop state as proofs see it.
pub ghost struct PreviewView {
    pub last_partial: Seq<char>,
    pub tick_ms: u64,
}

/// The loop's own small state: the last preview it emitted and the
/// current tick interval.
#[derive(Debug)]
pub struct PreviewLoop {
    last_partial: String,
    tick_ms: u64,
}

impl View for PreviewLoop {
    type V = PreviewView;

    closed spec fn view(&self) -> PreviewView {
        PreviewView { last_partial: self.last_partial@, tick_ms: self.tick_ms }
    }
}

/// What a tick does before any transcription call is made.
pub enum TickGate {
    Exit,
    KeepAlive(TranscriptEvent),
    Transcribe,
}

/// What a completed partial transcription leads to.
pub struct TickOutcome {
    pub event: TranscriptEvent,
    pub inject_text: Option<String>,
}

/// Whether a tick at `elapsed_ms` must end the loop: the recording has
/// run its configured course, or the state has already left Recording.
pub open spec fn tick_exits(
    elapsed_ms: u64,
    max_record_seconds: u32,
    state: RuntimeState,
) -> bool {
    elapsed_ms >= max_record_seconds * 1000 || state != RuntimeState::Recording
}

impl PreviewLoop {
    pub fn new() -> (p: Self)
        ensures
            p@.last_partial == Seq::<char>::empty(),
            p@.tick_ms == BASE_TICK_MS,
    {
        PreviewLoop { last_partial: String::new(), tick_ms: BASE_TICK_MS }
    }

    /// How long to wait before the next tick.
    pub fn tick_interval_ms(&self) -> (ms: u64)
        ensures
            ms == self@.tick_ms,
    {
        self.tick_ms
    }

    /// The decision at the start of a tick.  Exits when the session is
    /// over; keeps the UI alive without a call when preview is disabled
    /// or a call is still in flight; otherwise asks for a transcription.
    pub fn tick_gate(
        &mut self,
        elapsed_ms: u64,
        max_record_seconds: u32,
        state: RuntimeState,
        realtime_enabled: bool,
        busy: bool,
    ) -> (g: TickGate)
        ensures
            g is Exit <==> tick_exits(elapsed_ms, max_record_seconds, state),
            g is Exit ==> final(self)@ == old(self)@,
            !tick_exits(elapsed_ms, max_record_seconds, state) && (!realtime_enabled || busy) ==> (
            g matches TickGate::KeepAlive(ev) && ev.is_state_only(RuntimeState::Recording))
                && final(self)@.tick_ms == SLOW_TICK_MS
                && final(self)@.last_partial == old(self)@.last_partial,
            !tick_exits(elapsed_ms, max_record_seconds, state) && realtime_enabled && !busy ==> g
                is Transcribe && final(self)@ == old(self)@,
    {
        if elapsed_ms >= (max_record_seconds as u64) * 1000 {
            return TickGate::Exit;
        }
        if state != RuntimeState::Recording {
            return TickGate::Exit;
        }
        if !realtime_enabled || busy {
            self.tick_ms = SLOW_TICK_MS;
            return TickGate::KeepAlive(TranscriptEvent::state_only(RuntimeState::Recording));
        }
        TickGate::Transcribe
    }

    /// Folds a completed partial transcription into the loop.  A slow
    /// call widens the next tick.  An empty or unchanged text yields a
    /// keep-alive event and no injection; a fresh text is recorded,
    /// reported with its latency, and handed on for injection only when
    /// auto-type is on.
    pub fn tick_result(&mut self, partial: String, latency_ms: u64, auto_type: bool) -> (out:
        TickOutcome)
        ensures
            final(self)@.tick_ms == (if latency_ms > SLOW_CALL_THRESHOLD_MS {
                SLOW_TICK_MS
            } else {
                BASE_TICK_MS
            }),
            partial@.len() == 0 || partial@ == old(self)@.last_partial ==> (
            out.event.is_state_only(RuntimeState::Recording) && out.inject_text is None
                && final(self)@.last_partial == old(self)@.last_partial),
            partial@.len() > 0 && partial@ != old(self)@.last_partial ==> (
            final(self)@.last_partial == partial@ && out.event.partial_text@ == partial@
                && out.event.final_text is None && out.event.state == RuntimeState::Recording
                && out.event.latency_ms == Some(latency_ms) && (match out.inject_text {
                Some(t) => auto_type && t@ == partial@,
                None => !auto_type,
            })),
    {
        self.tick_ms = if latency_ms > SLOW_CALL_THRESHOLD_MS {
            SLOW_TICK_MS
        } else {
            BASE_TICK_MS
        };
        if partial.as_str().is_empty() || partial == self.last_partial {
            return TickOutcome {
                event: TranscriptEvent::state_only(RuntimeState::Recording),
                inject_text: None,
            };
        }
        self.last_partial = partial.clone();
        let inject_text = if auto_type {
            Some(partial.clone())
        } else {
            None
        };
        TickOutcome { event: TranscriptEvent::partial(partial, latency_ms), inject_text }
    }
}

} // verus!
