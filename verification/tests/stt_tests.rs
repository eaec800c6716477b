use notype::config::ModelSize;
use notype::error::AppError;
use notype::stt::SttService;
use notype::stt::Timed;
use notype::stt::download_progress_pct;
use notype::stt::interpret_final_transcription;
use notype::stt::interpret_model_ready;
use notype::stt::model_download_url;
use notype::stt::select_final_text;

#[test]
fn model_filename_matches_size() {
    let small = SttService::new(ModelSize::Small);
    let medium = SttService::new(ModelSize::Medium);
    assert_eq!(small.model_filename(), "ggml-small.bin");
    assert_eq!(medium.model_filename(), "ggml-medium.bin");
}

#[test]
fn model_download_url_is_defined() {
    assert!(model_download_url(ModelSize::Small).contains("ggml-small.bin"));
    assert!(model_download_url(ModelSize::Medium).contains("ggml-medium.bin"));
}

#[test]
fn model_path_joins_directory_and_filename() {
    let svc = SttService::with_model_dir(ModelSize::Small, String::from("/tmp/models"));
    assert_eq!(svc.model_path(), "/tmp/models/ggml-small.bin");
    let bare = SttService::new(ModelSize::Medium);
    assert_eq!(bare.model_path(), "ggml-medium.bin");
}

#[test]
fn partial_hint_reports_elapsed_seconds() {
    let svc = SttService::new(ModelSize::Small);
    assert_eq!(svc.transcribe_partial_hint(1250, true), "…録音中 1s");
    assert_eq!(svc.transcribe_partial_hint(250, true), "…録音中 0s");
    assert_eq!(svc.transcribe_partial_hint(61_000, true), "…録音中 61s");
    assert_eq!(svc.transcribe_partial_hint(999_999, false), "");
}

#[test]
fn transcription_timeout_is_distinct() {
    let out = interpret_final_transcription(Timed::TimedOut, "deadline has elapsed");
    let err = out.expect_err("timeout must fail");
    assert_eq!(err.user_message, "文字起こし処理がタイムアウトしました");
    assert_eq!(err.details, "deadline has elapsed");
}

#[test]
fn model_timeout_is_distinct() {
    let out = interpret_model_ready(Timed::TimedOut, "deadline has elapsed");
    let err = out.expect_err("timeout must fail");
    assert_eq!(
        err.user_message,
        "モデル準備がタイムアウトしました。ネットワークまたは容量を確認してください"
    );
}

#[test]
fn completed_outcomes_pass_through() {
    assert!(interpret_model_ready(Timed::Completed(Ok(())), "x").is_ok());
    let inner = AppError::new("a", "b");
    let out = interpret_final_transcription(Timed::Completed(Err(inner)), "x");
    let err = out.expect_err("inner error must pass through");
    assert_eq!(err.user_message, "a");
    assert_eq!(err.details, "b");
    let ok = interpret_final_transcription(
        Timed::Completed(Ok((String::from("text"), 42))),
        "x",
    );
    assert_eq!(ok.unwrap(), (String::from("text"), 42));
}

#[test]
fn final_text_prefers_sidecar_file() {
    let r = select_final_text(Some(String::from("  こんにちは \n")), "ignored");
    assert_eq!(r, "こんにちは");
    let r = select_final_text(Some(String::from("   \n")), "  fallback out  ");
    assert_eq!(r, "fallback out");
    let r = select_final_text(None, "\tstdout text\n");
    assert_eq!(r, "stdout text");
}

#[test]
fn download_percentage_is_rounded_and_capped() {
    assert_eq!(download_progress_pct(0, 1000), 0);
    assert_eq!(download_progress_pct(1, 3), 33);
    assert_eq!(download_progress_pct(1, 200), 1);
    assert_eq!(download_progress_pct(500, 1000), 50);
    assert_eq!(download_progress_pct(999, 1000), 99);
    assert_eq!(download_progress_pct(1000, 1000), 99);
}
