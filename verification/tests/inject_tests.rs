use notype::error::AppError;
use notype::inject::InjectOutcome;
use notype::inject::InjectionSession;
use notype::inject::InjectionUsecase;
use notype::inject::Injector;

#[test]
fn session_starts_fresh_and_resets() {
    let mut s = InjectionSession::new();
    assert!(s.is_partial_allowed());
    assert_eq!(s.last_partial(), "");
    s.set_last_partial("abc");
    s.mark_partial_denied();
    assert_eq!(s.last_partial(), "abc");
    assert!(!s.is_partial_allowed());
    s.reset();
    assert!(s.is_partial_allowed());
    assert_eq!(s.last_partial(), "");
}

#[test]
fn partial_then_final_erases_exactly_the_preview() {
    let inj = Injector::new();
    let mut s = InjectionSession::new();
    let plan = inj
        .type_partial_replace_plan(&s, "こんにちは")
        .expect("fresh session allows partials");
    assert_eq!(plan.erase_chars, 0);
    assert_eq!(plan.text, "こんにちは");
    inj.type_partial_replace_done(&mut s, "こんにちは", InjectOutcome::Done)
        .expect("success outcome");

    let final_plan = inj.type_final_plan(&s, "最終結果です");
    assert_eq!(final_plan.erase_chars, 5);
    assert_eq!(final_plan.text, "最終結果です");
    inj.type_final_done(&mut s, InjectOutcome::Done).expect("success outcome");
    assert_eq!(s.last_partial(), "");
    assert!(s.is_partial_allowed());
    assert_eq!(inj.type_final_plan(&s, "x").erase_chars, 0);
}

#[test]
fn partial_failure_disables_further_partials() {
    let inj = Injector::new();
    let mut s = InjectionSession::new();
    let err = AppError::new("キー注入に失敗しました", "wtype exited with 1");
    let r = inj.type_partial_replace_done(&mut s, "hello", InjectOutcome::TypeFailed(err));
    assert!(r.is_err());
    assert!(!s.is_partial_allowed());
    assert!(inj.type_partial_replace_plan(&s, "next").is_none());
}

#[test]
fn erase_failure_keeps_recorded_preview() {
    let inj = Injector::new();
    let mut s = InjectionSession::new();
    inj.type_partial_replace_done(&mut s, "abc", InjectOutcome::Done).unwrap();
    let err = AppError::new("キー注入に失敗しました", "backspace failed");
    let r = inj.type_partial_replace_done(&mut s, "abcd", InjectOutcome::EraseFailed(err));
    assert!(r.is_err());
    assert_eq!(s.last_partial(), "abc");
    assert!(!s.is_partial_allowed());
}

#[test]
fn final_commit_failure_after_erase_clears_preview() {
    let inj = Injector::new();
    let mut s = InjectionSession::new();
    inj.type_partial_replace_done(&mut s, "preview", InjectOutcome::Done).unwrap();
    let err = AppError::new("テキスト注入に失敗しました", "wtype exited with 1");
    let r = inj.type_final_done(&mut s, InjectOutcome::TypeFailed(err));
    assert!(r.is_err());
    assert_eq!(s.last_partial(), "");
    assert!(s.is_partial_allowed());
}

#[test]
fn degraded_latch_fires_once() {
    let mut u = InjectionUsecase::new();
    assert!(u.mark_partial_degraded_once());
    assert!(!u.mark_partial_degraded_once());
    u.reset_session();
    assert!(u.mark_partial_degraded_once());
}
