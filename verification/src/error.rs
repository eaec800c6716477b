//! The error carried by every fallible command: a short user-facing
//! message plus a technical detail string for diagnostics.

use vstd::prelude::*;
use vstd::string::StringExecFns;

verus! {

#[derive(Debug, Clone)]
pub struct AppError {
    pub user_message: String,
    pub details: String,
}

impl AppError {
    pub fn new(user_message: &str, details: &str) -> (e: AppError)
        ensures
            e.user_message@ == user_message@,
            e.details@ == details@,
    {
        AppError { user_message: user_message.to_owned(), details: details.to_owned() }
    }

    /// The one-line rendering "user_message (details)" used for logs.
    pub fn describe(&self) -> (s: String)
        ensures
            s@ == self.user_message@ + " ("@ + self.details@ + ")"@,
    {
        let mut s = self.user_message.clone();
        s.append(" (");
        s.append(self.details.as_str());
        s.append(")");
        s
    }
}

/// A command was rejected because the previous session is still processing.
pub fn busy_error() -> (e: AppError)
    ensures
        e.user_message@ == "まだ前回の処理中です。完了後に Alt+X を押してください"@,
        e.details@ == "cannot start while processing"@,
{
    AppError::new("まだ前回の処理中です。完了後に Alt+X を押してください", "cannot start while processing")
}

/// Stop was asked to run with no active session record.
pub fn session_missing_error() -> (e: AppError)
    ensures
        e.user_message@ == "録音セッションが見つかりません"@,
        e.details@ == "missing recording"@,
{
    AppError::new("録音セッションが見つかりません", "missing recording")
}

/// The capture backend did not stop within its deadline.
pub fn stop_timeout_error() -> (e: AppError)
    ensures
        e.user_message@ == "録音停止がタイムアウトしました。Alt+X で再試行してください"@,
        e.details@ == "stop_session timeout"@,
{
    AppError::new("録音停止がタイムアウトしました。Alt+X で再試行してください", "stop_session timeout")
}

/// Model preparation exceeded the model-readiness deadline.
pub fn model_timeout_error(details: &str) -> (e: AppError)
    ensures
        e.user_message@ == "モデル準備がタイムアウトしました。ネットワークまたは容量を確認してください"@,
        e.details@ == details@,
{
    AppError::new("モデル準備がタイムアウトしました。ネットワークまたは容量を確認してください", details)
}

/// The final transcription exceeded its own deadline.
pub fn transcription_timeout_error(details: &str) -> (e: AppError)
    ensures
        e.user_message@ == "文字起こし処理がタイムアウトしました"@,
        e.details@ == details@,
{
    AppError::new("文字起こし処理がタイムアウトしました", details)
}

/// A partial injection failed; previews degrade for the rest of the session.
pub fn partial_injection_error(details: &str) -> (e: AppError)
    ensures
        e.user_message@ == "部分注入に失敗したため、この録音では最終結果のみ注入します"@,
        e.details@ == details@,
{
    AppError::new("部分注入に失敗したため、この録音では最終結果のみ注入します", details)
}

/// The final auto-type injection failed after a successful transcription.
pub fn auto_type_error(details: &str) -> (e: AppError)
    ensures
        e.user_message@ == "自動入力に失敗しました。フォーカス先を確認して Alt+X で再試行してください"@,
        e.details@ == details@,
{
    AppError::new("自動入力に失敗しました。フォーカス先を確認して Alt+X で再試行してください", details)
}

/// The watchdog forced a stop because recording ran past its ceiling.
pub fn watchdog_error() -> (e: AppError)
    ensures
        e.user_message@ == "録音が上限時間を超えたため自動停止しました。Alt+X を再押下して再試行できます"@,
        e.details@ == "watchdog forced stop"@,
{
    AppError::new("録音が上限時間を超えたため自動停止しました。Alt+X を再押下して再試行できます", "watchdog forced stop")
}

/// A catch-all wrapper for failures of surrounding plumbing.
pub fn generic_failure(details: &str) -> (e: AppError)
    ensures
        e.user_message@ == "処理に失敗しました"@,
        e.details@ == details@,
{
    AppError::new("処理に失敗しました", details)
}

} // verus!
