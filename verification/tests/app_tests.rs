use notype::app::AppRuntime;
use notype::app::StartDecision;
use notype::app::StopBegin;
use notype::app::ToggleDecision;
use notype::audio::RecordingSession;
use notype::audio::interpret_capture_stop;
use notype::config::AppConfig;
use notype::inject::InjectOutcome;
use notype::state::RuntimeState;
use notype::stt::Timed;
use notype::stt::interpret_final_transcription;

fn recording_runtime(cfg: AppConfig) -> AppRuntime {
    let mut rt = AppRuntime::new(cfg);
    assert!(matches!(rt.start_recording(), StartDecision::Proceed));
    let session = RecordingSession::new(String::from("/tmp/take.wav"), 0);
    rt.start_recording_commit(session);
    assert_eq!(rt.state(), RuntimeState::Recording);
    rt
}

#[test]
fn toggle_requests_inside_debounce_window_are_coalesced() {
    let mut rt = AppRuntime::new(AppConfig::default());
    assert!(matches!(rt.toggle_recording(1000), ToggleDecision::DoStart));
    assert!(matches!(
        rt.toggle_recording(1100),
        ToggleDecision::Throttled(RuntimeState::Idle)
    ));
    assert!(matches!(
        rt.toggle_recording(1449),
        ToggleDecision::Throttled(RuntimeState::Idle)
    ));
    assert!(matches!(rt.toggle_recording(1899), ToggleDecision::DoStart));
}

#[test]
fn debounce_window_restarts_at_every_request() {
    // Each request comes under the window after the previous one, so
    // only the first is acted upon, however long the chain runs.
    let mut rt = AppRuntime::new(AppConfig::default());
    assert!(matches!(rt.toggle_recording(0), ToggleDecision::DoStart));
    assert!(matches!(
        rt.toggle_recording(400),
        ToggleDecision::Throttled(RuntimeState::Idle)
    ));
    assert!(matches!(
        rt.toggle_recording(800),
        ToggleDecision::Throttled(RuntimeState::Idle)
    ));
    assert!(matches!(rt.toggle_recording(1250), ToggleDecision::DoStart));
}

#[test]
fn toggle_is_ignored_while_processing() {
    let mut rt = recording_runtime(AppConfig::default());
    assert!(matches!(rt.stop_recording(), StopBegin::Proceed(_)));
    assert_eq!(rt.state(), RuntimeState::Processing);
    assert!(matches!(
        rt.toggle_recording(10_000),
        ToggleDecision::IgnoredProcessing
    ));
    assert_eq!(rt.state(), RuntimeState::Processing);
}

#[test]
fn stop_outside_recording_returns_last_committed_text() {
    let mut rt = AppRuntime::new(AppConfig::default());
    match rt.stop_recording() {
        StopBegin::NotRecording(text) => assert_eq!(text, ""),
        StopBegin::Proceed(_) => panic!("idle stop must be a no-op"),
    }
    assert_eq!(rt.state(), RuntimeState::Idle);
}

#[test]
fn start_while_processing_fails_busy_and_leaves_state() {
    let mut rt = recording_runtime(AppConfig::default());
    assert!(matches!(rt.stop_recording(), StopBegin::Proceed(_)));
    match rt.start_recording() {
        StartDecision::Busy(e) => {
            assert_eq!(e.user_message, "まだ前回の処理中です。完了後に Alt+X を押してください");
            assert_eq!(e.details, "cannot start while processing");
        }
        _ => panic!("start while processing must be rejected"),
    }
    assert_eq!(rt.state(), RuntimeState::Processing);
}

#[test]
fn start_while_recording_is_a_no_op() {
    let mut rt = recording_runtime(AppConfig::default());
    assert!(matches!(rt.start_recording(), StartDecision::AlreadyRecording));
    assert_eq!(rt.state(), RuntimeState::Recording);
}

#[test]
fn watchdog_deadline_adds_two_seconds_of_grace() {
    let mut rt = AppRuntime::new(AppConfig::default());
    assert!(matches!(rt.start_recording(), StartDecision::Proceed));
    let eff = rt.start_recording_commit(RecordingSession::new(String::from("/tmp/a.wav"), 0));
    assert_eq!(eff.watchdog_deadline_ms, 62_000);
    assert_eq!(eff.config_snapshot.max_record_seconds, 60);
    assert_eq!(eff.recording_event.state, RuntimeState::Recording);
    assert_eq!(eff.recording_event.partial_text, "");
}

#[test]
fn watchdog_fires_only_while_recording() {
    let mut rt = recording_runtime(AppConfig::default());
    let eff = rt.watchdog_fire().expect("recording left untouched: must fire");
    assert_eq!(rt.state(), RuntimeState::Idle);
    assert_eq!(eff.session.audio_path, "/tmp/take.wav");
    assert_eq!(eff.idle_event.state, RuntimeState::Idle);
    assert_eq!(
        eff.error_event.user_message,
        "録音が上限時間を超えたため自動停止しました。Alt+X を再押下して再試行できます"
    );
    assert_eq!(eff.error_event.details, "watchdog forced stop");
    assert!(rt.watchdog_fire().is_none());
}

#[test]
fn watchdog_never_fires_after_a_manual_stop() {
    let mut rt = recording_runtime(AppConfig::default());
    assert!(matches!(rt.stop_recording(), StopBegin::Proceed(_)));
    assert!(rt.watchdog_fire().is_none());
    assert_eq!(rt.state(), RuntimeState::Processing);
}

#[test]
fn transcription_timeout_aborts_to_idle_with_one_error() {
    let mut rt = recording_runtime(AppConfig::default());
    let proceed = match rt.stop_recording() {
        StopBegin::Proceed(p) => p,
        StopBegin::NotRecording(_) => panic!("was recording"),
    };
    assert_eq!(proceed.session.audio_path, "/tmp/take.wav");
    assert_eq!(proceed.processing_event.state, RuntimeState::Processing);
    let out = interpret_final_transcription(Timed::TimedOut, "deadline has elapsed");
    let err = out.expect_err("timeout");
    let failure = rt.stop_failed(&err);
    assert_eq!(rt.state(), RuntimeState::Idle);
    assert_eq!(failure.idle_event.state, RuntimeState::Idle);
    assert_eq!(failure.error_event.user_message, "文字起こし処理がタイムアウトしました");
    assert!(failure.abandoned.is_none());
}

#[test]
fn capture_stop_timeout_maps_to_the_stop_error() {
    let out = interpret_capture_stop(Timed::TimedOut);
    let err = out.expect_err("timeout");
    assert_eq!(err.user_message, "録音停止がタイムアウトしました。Alt+X で再試行してください");
    let ok = interpret_capture_stop(Timed::Completed(Ok(String::from("/tmp/a.wav"))));
    assert_eq!(ok.unwrap(), "/tmp/a.wav");
}

#[test]
fn successful_stop_cleans_text_and_plans_final_injection() {
    let mut rt = recording_runtime(AppConfig::default());
    assert!(matches!(rt.stop_recording(), StopBegin::Proceed(_)));
    let eff = rt.stop_succeeded(String::from("  認識結果 \n二行目です \n\n"), 840);
    assert_eq!(eff.text, "認識結果 二行目です");
    assert_eq!(rt.state(), RuntimeState::Ready);
    assert_eq!(rt.current_text(), "認識結果 二行目です");
    let plan = eff.inject.expect("auto-type is on by default");
    assert_eq!(plan.erase_chars, 0);
    assert_eq!(plan.text, "認識結果 二行目です");
    assert_eq!(eff.ready_event.final_text.as_deref(), Some("認識結果 二行目です"));
    assert_eq!(eff.ready_event.latency_ms, Some(840));
    let after = rt.final_injection_done(InjectOutcome::Done);
    assert!(after.is_ok());
}

#[test]
fn stop_without_cleanup_or_autotype_keeps_raw_text() {
    let mut cfg = AppConfig::default();
    cfg.text_cleanup = false;
    cfg.auto_type = false;
    let mut rt = recording_runtime(cfg);
    assert!(matches!(rt.stop_recording(), StopBegin::Proceed(_)));
    let eff = rt.stop_succeeded(String::from("  raw \n text "), 10);
    assert_eq!(eff.text, "  raw \n text ");
    assert!(eff.inject.is_none());
}

#[test]
fn failed_final_injection_aborts_the_stop() {
    let mut rt = recording_runtime(AppConfig::default());
    assert!(matches!(rt.stop_recording(), StopBegin::Proceed(_)));
    rt.stop_succeeded(String::from("text"), 5);
    let err = notype::error::AppError::new("", "wtype missing");
    let r = rt.final_injection_done(InjectOutcome::TypeFailed(err));
    let e = r.expect_err("a failed final injection is terminal");
    assert_eq!(
        e.user_message,
        "自動入力に失敗しました。フォーカス先を確認して Alt+X で再試行してください"
    );
    assert_eq!(e.details, "wtype missing");
    // The shell routes the error through the common failure recovery:
    // Idle, and exactly one error event carrying it.
    let failure = rt.stop_failed(&e);
    assert_eq!(rt.state(), RuntimeState::Idle);
    assert_eq!(failure.error_event.details, "wtype missing");
}

#[test]
fn partial_injection_failure_reports_once_then_goes_quiet() {
    let mut rt = recording_runtime(AppConfig::default());
    assert!(rt.partial_inject_plan("…1s").is_some());
    let err = notype::error::AppError::new("", "wtype exited with 1");
    let ev = rt.partial_inject_done("…1s", InjectOutcome::TypeFailed(err));
    let ev = ev.expect("first failure is reported");
    assert_eq!(
        ev.user_message,
        "部分注入に失敗したため、この録音では最終結果のみ注入します"
    );
    assert!(rt.partial_inject_plan("…2s").is_none());
}

#[test]
fn partial_flag_recovers_on_next_session() {
    let mut rt = recording_runtime(AppConfig::default());
    let err = notype::error::AppError::new("", "x");
    rt.partial_inject_done("p", InjectOutcome::TypeFailed(err));
    assert!(rt.partial_inject_plan("q").is_none());
    let eff = rt.watchdog_fire().expect("still recording");
    drop(eff);
    assert!(matches!(rt.start_recording(), StartDecision::Proceed));
    assert!(rt.partial_inject_plan("r").is_some());
}

#[test]
fn reset_idle_reclaims_the_session() {
    let mut rt = recording_runtime(AppConfig::default());
    let (ev, session) = rt.reset_idle();
    assert_eq!(ev.state, RuntimeState::Idle);
    assert_eq!(session.expect("was recording").audio_path, "/tmp/take.wav");
    assert_eq!(rt.state(), RuntimeState::Idle);
}

#[test]
fn update_config_merges_then_commits() {
    let mut rt = AppRuntime::new(AppConfig::default());
    let mut incoming = AppConfig::default();
    incoming.max_record_seconds = 120;
    let merged = rt.update_config(incoming);
    assert_eq!(merged.max_record_seconds, 120);
    rt.update_config_commit(merged);
    assert_eq!(rt.get_config().max_record_seconds, 120);
}

#[test]
fn type_text_plans_a_final_commit() {
    let mut rt = AppRuntime::new(AppConfig::default());
    let plan = rt.type_text("typed on demand");
    assert_eq!(plan.erase_chars, 0);
    assert_eq!(plan.text, "typed on demand");
    assert!(rt.type_text_done(InjectOutcome::Done).is_ok());
    let err = notype::error::AppError::new("キー注入に失敗しました", "no compositor");
    let r = rt.type_text_done(InjectOutcome::EraseFailed(err));
    assert_eq!(r.expect_err("propagates").details, "no compositor");
}
