//! The session orchestrator: the single source of truth for the runtime
//! state, the serialization of lifecycle transitions, and the composition
//! of capture, transcription and injection.
//!
//! Every operation with outside work in its middle is split into phases:
//! a phase that decides and mutates the state, and a phase that folds the
//! outcome of the outside work back in.  The unverified shell performs
//! the work between the phases and emits the events each phase returns.

use vstd::prelude::*;

use crate::audio::RecordingSession;
use crate::config::AppConfig;
use crate::config::cfg_eq;
use crate::config::merge_config;
use crate::error::AppError;
use crate::inject::InjectOutcome;
use crate::inject::InjectionPlan;
use crate::inject::InjectionUsecase;
use crate::inject::UsecaseView;
use crate::inject::erase_count;
use crate::inject::fresh_session;
use crate::inject::fresh_usecase;
use crate::inject::usecase_after_partial_failed;
use crate::inject::usecase_after_partial_ok;
use crate::state::ErrorEvent;
use crate::state::RuntimeState;
use crate::state::TranscriptEvent;
use crate::text::cleanup_spec;
use crate::text::cleanup_text;

verus! {

/// Two toggle requests closer than this are coalesced into a no-op.
pub const TOGGLE_DEBOUNCE_MS: u64 = 450;

/// The grace the watchdog adds past the configured recording ceiling.
pub const WATCHDOG_GRACE_MS: u64 = 2000;

/// The orchestrator as proofs see it.
pub ghost struct RuntimeView {
    pub state: RuntimeState,
    pub current_text: Seq<char>,
    pub recording: Option<RecordingSession>,
    pub partial_task_live: bool,
    pub watchdog_task_live: bool,
    pub last_toggle_at_ms: Option<u64>,
    pub config: AppConfig,
    pub injection: UsecaseView,
}

impl RuntimeView {
    /// The structural invariant: a capture session exists exactly while
    /// recording, and background tasks only live while recording.
    pub open spec fn inv(self) -> bool {
        &&& (self.recording is Some <==> self.state == RuntimeState::Recording)
        &&& (self.partial_task_live ==> self.state == RuntimeState::Recording)
        &&& (self.watchdog_task_live ==> self.state == RuntimeState::Recording)
    }
}

/// Whether a toggle arriving at `now_ms` falls inside the debounce window
/// of the previous one.
pub open spec fn toggle_throttled(v: RuntimeView, now_ms: u64) -> bool {
    match v.last_toggle_at_ms {
        Some(t) => now_ms - t < TOGGLE_DEBOUNCE_MS,
        None => false,
    }
}

/// The toggle timestamps the orchestrator has seen never run backwards.
pub open spec fn toggle_clock_ok(v: RuntimeView, now_ms: u64) -> bool {
    match v.last_toggle_at_ms {
        Some(t) => t <= now_ms,
        None => true,
    }
}

/// The orchestrator after a toggle request at `now_ms`, acted upon or
/// not: every request restarts the debounce window, so the timestamp is
/// recorded either way and nothing else moves at decision time.
pub open spec fn with_toggle_stamp(v: RuntimeView, now_ms: u64) -> RuntimeView {
    RuntimeView { last_toggle_at_ms: Some(now_ms), ..v }
}

/// The orchestrator after the start phase that resets the injection
/// session.
pub open spec fn with_fresh_injection(v: RuntimeView) -> RuntimeView {
    RuntimeView { injection: fresh_usecase(), ..v }
}

/// The orchestrator with its injection usecase replaced.
pub open spec fn with_injection(v: RuntimeView, u: UsecaseView) -> RuntimeView {
    RuntimeView { injection: u, ..v }
}

/// The orchestrator after committing a new recording.
pub open spec fn after_start_commit(v: RuntimeView, session: RecordingSession) -> RuntimeView {
    RuntimeView {
        state: RuntimeState::Recording,
        recording: Some(session),
        partial_task_live: true,
        watchdog_task_live: true,
        ..v
    }
}

/// The orchestrator after the stop phase that leaves Recording: tasks
/// cancelled, session reclaimed, state Processing.
pub open spec fn after_stop_begin(v: RuntimeView) -> RuntimeView {
    RuntimeView {
        state: RuntimeState::Processing,
        recording: None,
        partial_task_live: false,
        watchdog_task_live: false,
        ..v
    }
}

/// The orchestrator after being forced back to Idle: the common recovery
/// shape of `reset_idle`, every stop failure, and the watchdog.
pub open spec fn after_forced_idle(v: RuntimeView) -> RuntimeView {
    RuntimeView {
        state: RuntimeState::Idle,
        recording: None,
        partial_task_live: false,
        watchdog_task_live: false,
        ..v
    }
}

/// The orchestrator after a successful stop pipeline with final text `t`.
pub open spec fn after_stop_success(v: RuntimeView, t: Seq<char>) -> RuntimeView {
    RuntimeView { state: RuntimeState::Ready, current_text: t, ..v }
}

/// Whether the watchdog body would act: only while still Recording.
pub open spec fn watchdog_would_fire(v: RuntimeView) -> bool {
    v.state == RuntimeState::Recording
}

/// What a toggle request decided.
pub enum ToggleDecision {
    /// Coalesced with a recent toggle; carries the unchanged state.
    Throttled(RuntimeState),
    /// Received while Processing; ignored, never queued.
    IgnoredProcessing,
    /// The session is recording; the shell performs the stop pipeline.
    DoStop,
    /// The session is idle or ready; the shell performs the start.
    DoStart,
}

/// What a start request decided.
pub enum StartDecision {
    /// Already recording; success with nothing to do.
    AlreadyRecording,
    /// Rejected: the previous session is still processing.
    Busy(AppError),
    /// Go ahead: acquire a capture session and commit it.
    Proceed,
}

/// What committing a new recording hands to the shell.
pub struct StartEffects {
    /// The transcript event announcing the recording state.
    pub recording_event: TranscriptEvent,
    /// The configuration frozen for the whole session.
    pub config_snapshot: AppConfig,
    /// When the watchdog must fire, in milliseconds after recording began.
    pub watchdog_deadline_ms: u64,
}

/// What a stop request decided.
pub enum StopBegin {
    /// Not recording: a no-op returning the last committed text.
    NotRecording(String),
    /// Recording: run the stop pipeline on the reclaimed session.
    Proceed(StopProceed),
}

pub struct StopProceed {
    /// The capture session to stop; its artifact is deleted afterwards
    /// whatever happens.
    pub session: RecordingSession,
    /// The transcript event announcing the processing state.
    pub processing_event: TranscriptEvent,
}

/// The effects of a failed stop pipeline: recovery to Idle and exactly
/// one error event.
pub struct StopFailure {
    pub idle_event: TranscriptEvent,
    pub error_event: ErrorEvent,
    /// A capture session still held, to be stopped and discarded.
    pub abandoned: Option<RecordingSession>,
}

/// The effects of a successful stop pipeline.
pub struct StopSuccess {
    /// The final text, already normalized when text cleanup is on.
    pub text: String,
    /// The final injection to perform, when auto-type is on.
    pub inject: Option<InjectionPlan>,
    /// The transcript event carrying the final text and latency.
    pub ready_event: TranscriptEvent,
}

/// The effects of a fired watchdog: the session to discard and the two
/// events announcing the forced stop.
pub struct WatchdogEffects {
    pub session: RecordingSession,
    pub idle_event: TranscriptEvent,
    pub error_event: ErrorEvent,
}

/// Holds the runtime state and serializes every lifecycle transition.
pub struct AppRuntime {
    state: RuntimeState,
    current_text: String,
    recording: Option<RecordingSession>,
    partial_task_live: bool,
    watchdog_task_live: bool,
    last_toggle_at_ms: Option<u64>,
    config: AppConfig,
    injection: InjectionUsecase,
}

impl View for AppRuntime {
    type V = RuntimeView;

    closed spec fn view(&self) -> RuntimeView {
        RuntimeView {
            state: self.state,
            current_text: self.current_text@,
            recording: self.recording,
            partial_task_live: self.partial_task_live,
            watchdog_task_live: self.watchdog_task_live,
            last_toggle_at_ms: self.last_toggle_at_ms,
            config: self.config,
            injection: self.injection@,
        }
    }
}

impl AppRuntime {
    pub fn new(config: AppConfig) -> (rt: AppRuntime)
        ensures
            rt@.inv(),
            rt@.state == RuntimeState::Idle,
            rt@.current_text == Seq::<char>::empty(),
            rt@.recording is None,
            !rt@.partial_task_live,
            !rt@.watchdog_task_live,
            rt@.last_toggle_at_ms is None,
            rt@.config == config,
            rt@.injection == fresh_usecase(),
    {
        AppRuntime {
            state: RuntimeState::Idle,
            current_text: String::new(),
            recording: None,
            partial_task_live: false,
            watchdog_task_live: false,
            last_toggle_at_ms: None,
            config,
            injection: InjectionUsecase::new(),
        }
    }

    pub fn state(&self) -> (s: RuntimeState)
        ensures
            s == self@.state,
    {
        self.state
    }

    pub fn current_text(&self) -> (t: String)
        ensures
            t@ == self@.current_text,
    {
        self.current_text.clone()
    }

    pub fn get_config(&self) -> (cfg: AppConfig)
        ensures
            cfg_eq(&cfg, &self@.config),
    {
        self.config.snapshot()
    }

    /// The merge half of a configuration update: the stored pill position
    /// survives when the incoming record carries none.  The shell
    /// persists the merged record, then commits it.
    pub fn update_config(&self, incoming: AppConfig) -> (merged: AppConfig)
        ensures
            merged.pill_position == (if incoming.pill_position is None {
                self@.config.pill_position
            } else {
                incoming.pill_position
            }),
            merged.max_record_seconds == incoming.max_record_seconds,
            merged.model == incoming.model,
            merged.auto_type == incoming.auto_type,
            merged.text_cleanup == incoming.text_cleanup,
            merged.llm_postprocess_enabled == incoming.llm_postprocess_enabled,
            merged.llm_provider@ == incoming.llm_provider@,
            merged.llm_api_base_url@ == incoming.llm_api_base_url@,
            merged.llm_api_key@ == incoming.llm_api_key@,
            merged.llm_model@ == incoming.llm_model@,
            merged.realtime_enabled == incoming.realtime_enabled,
            merged.partial_autotype_mode == incoming.partial_autotype_mode,
    {
        merge_config(&self.config, incoming)
    }

    /// The commit half of a configuration update, run once the merged
    /// record has been persisted.  The running session is not affected:
    /// its snapshot was taken at start.
    pub fn update_config_commit(&mut self, merged: AppConfig)
        requires
            old(self)@.inv(),
        ensures
            final(self)@.inv(),
            final(self)@ == (RuntimeView { config: merged, ..old(self)@ }),
    {
        self.config = merged;
    }

    /// Debounced dispatch: a toggle within the debounce window of the
    /// previous request — whatever became of that request — returns the
    /// current state untouched; otherwise the current state picks stop,
    /// start, or (while Processing) nothing.  Every request restarts the
    /// window.
    pub fn toggle_recording(&mut self, now_ms: u64) -> (d: ToggleDecision)
        requires
            old(self)@.inv(),
            toggle_clock_ok(old(self)@, now_ms),
        ensures
            final(self)@.inv(),
            final(self)@ == with_toggle_stamp(old(self)@, now_ms),
            toggle_throttled(old(self)@, now_ms) ==> d == ToggleDecision::Throttled(
                old(self)@.state,
            ),
            !toggle_throttled(old(self)@, now_ms) ==> d == (if old(self)@.state
                == RuntimeState::Processing {
                ToggleDecision::IgnoredProcessing
            } else if old(self)@.state == RuntimeState::Recording {
                ToggleDecision::DoStop
            } else {
                ToggleDecision::DoStart
            }),
    {
        let mut throttled = false;
        if let Some(t) = self.last_toggle_at_ms {
            if now_ms - t < TOGGLE_DEBOUNCE_MS {
                throttled = true;
            }
        }
        self.last_toggle_at_ms = Some(now_ms);
        if throttled {
            return ToggleDecision::Throttled(self.state);
        }
        if self.state == RuntimeState::Processing {
            ToggleDecision::IgnoredProcessing
        } else if self.state == RuntimeState::Recording {
            ToggleDecision::DoStop
        } else {
            ToggleDecision::DoStart
        }
    }

    /// The decision half of starting a recording.  A no-op while already
    /// Recording; rejected with the busy error while Processing and the
    /// state is untouched; otherwise the injection session is reset and
    /// the shell acquires a capture session.
    pub fn start_recording(&mut self) -> (d: StartDecision)
        requires
            old(self)@.inv(),
        ensures
            final(self)@.inv(),
            old(self)@.state == RuntimeState::Recording ==> d == StartDecision::AlreadyRecording
                && final(self)@ == old(self)@,
            old(self)@.state == RuntimeState::Processing ==> (d matches StartDecision::Busy(e)
                && e.user_message@ == "まだ前回の処理中です。完了後に Alt+X を押してください"@ && e.details@
                == "cannot start while processing"@) && final(self)@ == old(self)@,
            old(self)@.state == RuntimeState::Idle || old(self)@.state == RuntimeState::Ready ==> d
                == StartDecision::Proceed && final(self)@ == with_fresh_injection(old(self)@),
    {
        if self.state == RuntimeState::Recording {
            return StartDecision::AlreadyRecording;
        }
        if self.state == RuntimeState::Processing {
            return StartDecision::Busy(crate::error::busy_error());
        }
        self.injection.reset_session();
        StartDecision::Proceed
    }

    /// The commit half of starting a recording, run once the capture
    /// session is up: any stale watchdog is superseded, the session is
    /// owned, the state becomes Recording, and the shell receives the
    /// announcement event, the frozen configuration and the watchdog
    /// deadline.
    pub fn start_recording_commit(&mut self, session: RecordingSession) -> (eff: StartEffects)
        requires
            old(self)@.inv(),
            old(self)@.state == RuntimeState::Idle || old(self)@.state == RuntimeState::Ready,
        ensures
            final(self)@.inv(),
            final(self)@ == after_start_commit(old(self)@, session),
            eff.recording_event.is_state_only(RuntimeState::Recording),
            cfg_eq(&eff.config_snapshot, &old(self)@.config),
            eff.watchdog_deadline_ms == old(self)@.config.max_record_seconds * 1000
                + WATCHDOG_GRACE_MS,
    {
        self.recording = Some(session);
        self.state = RuntimeState::Recording;
        self.partial_task_live = true;
        self.watchdog_task_live = true;
        let config_snapshot = self.config.snapshot();
        let watchdog_deadline_ms = (self.config.max_record_seconds as u64) * 1000
            + WATCHDOG_GRACE_MS;
        StartEffects {
            recording_event: TranscriptEvent::state_only(RuntimeState::Recording),
            config_snapshot,
            watchdog_deadline_ms,
        }
    }

    /// The decision half of stopping.  Outside Recording it is a no-op
    /// returning the last committed text and emits nothing.  While
    /// Recording it cancels both background tasks, reclaims the capture
    /// session, moves to Processing and announces it; the shell then runs
    /// the stop pipeline and reports back.
    pub fn stop_recording(&mut self) -> (b: StopBegin)
        requires
            old(self)@.inv(),
        ensures
            final(self)@.inv(),
            old(self)@.state != RuntimeState::Recording ==> (b matches StopBegin::NotRecording(t)
                && t@ == old(self)@.current_text) && final(self)@ == old(self)@,
            old(self)@.state == RuntimeState::Recording ==> (b matches StopBegin::Proceed(p)
                && old(self)@.recording matches Some(s) && p.session == s
                && p.processing_event.is_state_only(RuntimeState::Processing)) && final(self)@
                == after_stop_begin(old(self)@),
    {
        if self.state != RuntimeState::Recording {
            return StopBegin::NotRecording(self.current_text.clone());
        }
        self.partial_task_live = false;
        self.watchdog_task_live = false;
        self.state = RuntimeState::Processing;
        let session = self.recording.take().unwrap();
        StopBegin::Proceed(
            StopProceed {
                session,
                processing_event: TranscriptEvent::state_only(RuntimeState::Processing),
            },
        )
    }

    /// The recovery half of a failed stop pipeline: back to Idle via the
    /// common reset, with exactly one error event carrying the failure.
    pub fn stop_failed(&mut self, err: &AppError) -> (eff: StopFailure)
        requires
            old(self)@.inv(),
        ensures
            final(self)@.inv(),
            final(self)@ == after_forced_idle(old(self)@),
            eff.idle_event.is_state_only(RuntimeState::Idle),
            eff.error_event.user_message@ == err.user_message@,
            eff.error_event.details@ == err.details@,
            eff.abandoned == old(self)@.recording,
    {
        let (idle_event, abandoned) = self.reset_idle();
        StopFailure {
            idle_event,
            error_event: ErrorEvent {
                user_message: err.user_message.clone(),
                details: err.details.clone(),
            },
            abandoned,
        }
    }

    /// The success half of the stop pipeline, run with the recognized
    /// text and its latency: the text is normalized when cleanup is on,
    /// committed as the current text, the state becomes Ready, and the
    /// shell receives the final injection plan (when auto-type is on)
    /// and the closing transcript event.  Should the final injection then
    /// fail, that failure is terminal for the session: the shell routes
    /// the error from `final_injection_done` through `stop_failed` like
    /// every other pipeline failure.
    pub fn stop_succeeded(&mut self, raw_text: String, latency_ms: u64) -> (eff: StopSuccess)
        requires
            old(self)@.inv(),
            old(self)@.state == RuntimeState::Processing,
        ensures
            final(self)@.inv(),
            final(self)@ == after_stop_success(old(self)@, eff.text@),
            eff.text@ == (if old(self)@.config.text_cleanup {
                cleanup_spec(raw_text@)
            } else {
                raw_text@
            }),
            eff.inject is Some <==> old(self)@.config.auto_type,
            eff.inject matches Some(p) ==> p.erase_chars == erase_count(
                old(self)@.injection.session,
            ) && p.text@ == eff.text@,
            eff.ready_event.partial_text@.len() == 0,
            eff.ready_event.final_text matches Some(t) && t@ == eff.text@,
            eff.ready_event.state == RuntimeState::Ready,
            eff.ready_event.latency_ms == Some(latency_ms),
    {
        let text = if self.config.text_cleanup {
            cleanup_text(raw_text)
        } else {
            raw_text
        };
        self.current_text = text.clone();
        self.state = RuntimeState::Ready;
        let inject = if self.config.auto_type {
            Some(self.injection.type_final_plan(text.as_str()))
        } else {
            None
        };
        let ready_event = TranscriptEvent::final_result(text.clone(), latency_ms);
        StopSuccess { text, inject, ready_event }
    }

    /// Folds the outcome of the final auto-type injection into the
    /// session.  A failure is terminal for the session: the auto-type
    /// error comes back to the caller, who aborts the stop through
    /// `stop_failed` — Idle, exactly one error event, and the command
    /// fails.
    pub fn final_injection_done(&mut self, outcome: InjectOutcome) -> (r: Result<(), AppError>)
        requires
            old(self)@.inv(),
        ensures
            final(self)@.inv(),
            final(self)@ == with_injection(old(self)@, final(self)@.injection),
            final(self)@.injection.partial_degraded == old(self)@.injection.partial_degraded,
            outcome is Done ==> final(self)@.injection.session == fresh_session() && r is Ok,
            outcome matches InjectOutcome::EraseFailed(e) ==> final(self)@.injection.session == old(self)@.injection.session && (r matches Err(ae) && ae.user_message@
                == "自動入力に失敗しました。フォーカス先を確認して Alt+X で再試行してください"@ && ae.details@ == e.details@),
            outcome matches InjectOutcome::TypeFailed(e) ==> final(self)@.injection.session.last_partial == Seq::<char>::empty() && final(self)@.injection.session.partial_allowed == old(self)@.injection.session.partial_allowed
                && (r matches Err(ae) && ae.user_message@
                == "自動入力に失敗しました。フォーカス先を確認して Alt+X で再試行してください"@ && ae.details@ == e.details@),
    {
        match self.injection.type_final_done(outcome) {
            Ok(()) => Ok(()),
            Err(e) => Err(crate::error::auto_type_error(e.details.as_str())),
        }
    }

    /// The plan for typing arbitrary text on request: a final commit
    /// against the current injection session.
    pub fn type_text(&self, text: &str) -> (p: InjectionPlan)
        ensures
            p.erase_chars == erase_count(self@.injection.session),
            p.text@ == text@,
    {
        self.injection.type_final_plan(text)
    }

    /// Folds the outcome of a requested typing back in; unlike the stop
    /// pipeline's final injection, the error is returned to the caller.
    pub fn type_text_done(&mut self, outcome: InjectOutcome) -> (r: Result<(), AppError>)
        requires
            old(self)@.inv(),
        ensures
            final(self)@.inv(),
            final(self)@ == with_injection(old(self)@, final(self)@.injection),
            final(self)@.injection.partial_degraded == old(self)@.injection.partial_degraded,
            outcome is Done ==> final(self)@.injection.session == fresh_session() && r is Ok,
            outcome matches InjectOutcome::EraseFailed(e) ==> final(self)@.injection.session == old(self)@.injection.session && r == Err::<(), AppError>(e),
            outcome matches InjectOutcome::TypeFailed(e) ==> final(self)@.injection.session.last_partial == Seq::<char>::empty() && final(self)@.injection.session.partial_allowed == old(self)@.injection.session.partial_allowed
                && r == Err::<(), AppError>(e),
    {
        self.injection.type_final_done(outcome)
    }

    /// The plan for replacing the on-screen preview from the preview
    /// loop, or nothing once partial injection has been disabled.
    pub fn partial_inject_plan(&self, text: &str) -> (p: Option<InjectionPlan>)
        ensures
            p is Some <==> self@.injection.session.partial_allowed,
            p matches Some(pl) ==> pl.erase_chars == erase_count(self@.injection.session)
                && pl.text@ == text@,
    {
        self.injection.type_partial_replace_plan(text)
    }

    /// Folds the outcome of a partial injection back in.  A failure
    /// permanently disables partial injection for this session and is
    /// reported at most once: only the first failure yields an event.
    pub fn partial_inject_done(&mut self, text: &str, outcome: InjectOutcome) -> (ev: Option<
        ErrorEvent,
    >)
        requires
            old(self)@.inv(),
            old(self)@.injection.session.partial_allowed,
        ensures
            final(self)@.inv(),
            outcome is Done ==> final(self)@ == with_injection(
                old(self)@,
                usecase_after_partial_ok(old(self)@.injection, text@),
            ) && ev is None,
            outcome matches InjectOutcome::EraseFailed(e) ==> final(self)@ == with_injection(
                old(self)@,
                usecase_after_partial_failed(old(self)@.injection, false),
            ) && (ev is Some <==> !old(self)@.injection.partial_degraded) && (ev matches Some(evv)
                ==> evv.user_message@ == "部分注入に失敗したため、この録音では最終結果のみ注入します"@ && evv.details@
                == e.details@),
            outcome matches InjectOutcome::TypeFailed(e) ==> final(self)@ == with_injection(
                old(self)@,
                usecase_after_partial_failed(old(self)@.injection, true),
            ) && (ev is Some <==> !old(self)@.injection.partial_degraded) && (ev matches Some(evv)
                ==> evv.user_message@ == "部分注入に失敗したため、この録音では最終結果のみ注入します"@ && evv.details@
                == e.details@),
    {
        match self.injection.type_partial_replace_done(text, outcome) {
            Ok(()) => None,
            Err(e) => {
                let first = self.injection.mark_partial_degraded_once();
                if first {
                    let ae = crate::error::partial_injection_error(e.details.as_str());
                    Some(ErrorEvent { user_message: ae.user_message, details: ae.details })
                } else {
                    None
                }
            },
        }
    }

    /// The watchdog body, run when its deadline passes.  It acts only if
    /// the state is still Recording: then it cancels the preview task,
    /// reclaims the session for disposal, forces Idle and announces the
    /// forced stop.  After any legitimate stop it does nothing.
    pub fn watchdog_fire(&mut self) -> (eff: Option<WatchdogEffects>)
        requires
            old(self)@.inv(),
        ensures
            final(self)@.inv(),
            !watchdog_would_fire(old(self)@) ==> eff is None && final(self)@ == old(self)@,
            watchdog_would_fire(old(self)@) ==> (eff matches Some(w)
                && old(self)@.recording matches Some(s) && w.session == s
                && w.idle_event.is_state_only(RuntimeState::Idle) && w.error_event.user_message@
                == "録音が上限時間を超えたため自動停止しました。Alt+X を再押下して再試行できます"@ && w.error_event.details@
                == "watchdog forced stop"@) && final(self)@ == after_forced_idle(old(self)@),
    {
        if self.state != RuntimeState::Recording {
            return None;
        }
        let (idle_event, taken) = self.reset_idle();
        let session = taken.unwrap();
        let we = crate::error::watchdog_error();
        Some(
            WatchdogEffects {
                session,
                idle_event,
                error_event: ErrorEvent { user_message: we.user_message, details: we.details },
            },
        )
    }

    /// The common failure recovery: cancel any live background tasks,
    /// force Idle and announce it.  Returns a capture session still held,
    /// so the caller can dispose of its artifact.
    pub fn reset_idle(&mut self) -> (r: (TranscriptEvent, Option<RecordingSession>))
        requires
            old(self)@.inv(),
        ensures
            final(self)@.inv(),
            final(self)@ == after_forced_idle(old(self)@),
            r.0.is_state_only(RuntimeState::Idle),
            r.1 == old(self)@.recording,
    {
        self.partial_task_live = false;
        self.watchdog_task_live = false;
        self.state = RuntimeState::Idle;
        let taken = self.recording.take();
        (TranscriptEvent::state_only(RuntimeState::Idle), taken)
    }
}

/// Law: of toggle requests spaced under the debounce window, only the
/// first is acted upon.  Every request — acted upon or throttled — leaves
/// its timestamp behind, so any request within the window of the previous
/// one is throttled, returns the pre-existing state and changes nothing
/// but that timestamp.
pub proof fn lemma_toggle_debounce(v: RuntimeView, now1: u64, now2: u64)
    requires
        now1 <= now2,
        now2 - now1 < TOGGLE_DEBOUNCE_MS,
    ensures
        toggle_throttled(with_toggle_stamp(v, now1), now2),
{
}

/// Law: every failure of the stop pipeline recovers to Idle with the
/// capture session reclaimed, no live background tasks, and the
/// structural invariant intact; the accompanying effects carry exactly
/// one error event.  The recovery is idempotent: forcing Idle twice is
/// the same as forcing it once.
pub proof fn lemma_stop_failure_recovers(v: RuntimeView)
    ensures
        after_forced_idle(v).inv(),
        after_forced_idle(v).state == RuntimeState::Idle,
        after_forced_idle(v).recording is None,
        !after_forced_idle(v).partial_task_live,
        !after_forced_idle(v).watchdog_task_live,
        after_forced_idle(after_forced_idle(v)) == after_forced_idle(v),
{
}

/// Law: the watchdog acts only while the state is still Recording, and
/// every path that ends a recording — a stop that has begun, a completed
/// stop, a failed stop, or an earlier firing — leaves a state in which it
/// never fires.  When its deadline does run out with the recording left
/// untouched, the state is still Recording and the firing forces Idle.
pub proof fn lemma_watchdog_quiet_after_stop(v: RuntimeView, t: Seq<char>)
    ensures
        !watchdog_would_fire(after_stop_begin(v)),
        !watchdog_would_fire(after_stop_success(v, t)),
        !watchdog_would_fire(after_forced_idle(v)),
{
}

} // verus!
