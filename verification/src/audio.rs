//! The record of one audio capture session.  Spawning and stopping the
//! capture process is outside work; the orchestrator owns this record and
//! the shell reports how stopping went.

use vstd::prelude::*;

use crate::error::AppError;
use crate::stt::Timed;

verus! {

/// How long the capture backend may take to stop, in seconds.
pub const STOP_SESSION_TIMEOUT_SECS: u64 = 3;

/// An active capture: where the audio artifact is being written and when
/// recording started, in milliseconds of a monotonic clock.
#[derive(Debug)]
pub struct RecordingSession {
    pub audio_path: String,
    pub started_at_ms: u64,
}

impl RecordingSession {
    pub fn new(audio_path: String, started_at_ms: u64) -> (s: Self)
        ensures
            s.audio_path@ == audio_path@,
            s.started_at_ms == started_at_ms,
    {
        RecordingSession { audio_path, started_at_ms }
    }
}

/// Turns the timed outcome of stopping the capture session into the
/// artifact path or the error the command reports: a timeout becomes the
/// stop-timeout error, everything else passes through.
pub fn interpret_capture_stop(r: Timed<Result<String, AppError>>) -> (out: Result<
    String,
    AppError,
>)
    ensures
        r is TimedOut ==> (out matches Err(e) && e.user_message@
            == "録音停止がタイムアウトしました。Alt+X で再試行してください"@ && e.details@ == "stop_session timeout"@),
        r matches Timed::Completed(x) ==> out == x,
{
    match r {
        Timed::Completed(x) => x,
        Timed::TimedOut => Err(crate::error::stop_timeout_error()),
    }
}

} // verus!
