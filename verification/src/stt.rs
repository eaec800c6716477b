//! The transcription gateway: model bookkeeping, the timeout ceilings
//! around the unbounded external operations, and the deterministic parts
//! of the transcription pipeline.

use vstd::prelude::*;
use vstd::string::StrSliceExecFns;
use vstd::string::StringExecFns;

use crate::config::ModelSize;
use crate::error::AppError;
use crate::text;

verus! {

/// How long model preparation (including a first download) may take.
pub const MODEL_READY_TIMEOUT_SECS: u64 = 180;

/// How long the final transcription call may take.
pub const TRANSCRIBE_TIMEOUT_SECS: u64 = 90;

/// The outcome of racing an operation against a deadline.
pub enum Timed<T> {
    Completed(T),
    TimedOut,
}

/// The transcription backend's configuration: which model to use and
/// where model artifacts are stored.
#[derive(Debug)]
pub struct SttService {
    pub model: ModelSize,
    pub model_dir: String,
}

impl SttService {
    /// A service with no model directory chosen yet; the shell points it
    /// at the real artifact store before use.
    pub fn new(model: ModelSize) -> (s: Self)
        ensures
            s.model == model,
            s.model_dir@.len() == 0,
    {
        SttService { model, model_dir: String::new() }
    }

    pub fn with_model_dir(model: ModelSize, model_dir: String) -> (s: Self)
        ensures
            s.model == model,
            s.model_dir@ == model_dir@,
    {
        SttService { model, model_dir }
    }

    pub fn model_filename(&self) -> (r: &'static str)
        ensures
            self.model == ModelSize::Small ==> r@ == "ggml-small.bin"@,
            self.model == ModelSize::Medium ==> r@ == "ggml-medium.bin"@,
    {
        match self.model {
            ModelSize::Small => "ggml-small.bin",
            ModelSize::Medium => "ggml-medium.bin",
        }
    }

    /// The artifact path: the model file inside the model directory.
    pub fn model_path(&self) -> (r: String)
        ensures
            self.model_dir@.len() == 0 ==> r@ == (if self.model == ModelSize::Small {
                "ggml-small.bin"@
            } else {
                "ggml-medium.bin"@
            }),
            self.model_dir@.len() > 0 ==> r@ == self.model_dir@ + "/"@ + (if self.model
                == ModelSize::Small {
                "ggml-small.bin"@
            } else {
                "ggml-medium.bin"@
            }),
    {
        let name = self.model_filename();
        if self.model_dir.as_str().is_empty() {
            return name.to_owned();
        }
        let mut r = self.model_dir.clone();
        r.append("/");
        r.append(name);
        r
    }

    /// The cheap elapsed-time hint shown while a partial transcription is
    /// not available: nothing if the artifact is gone, otherwise the
    /// elapsed whole seconds.
    pub fn transcribe_partial_hint(&self, elapsed_ms: u64, audio_file_exists: bool) -> (r: String)
        ensures
            !audio_file_exists ==> r@.len() == 0,
            audio_file_exists ==> r@ == "…録音中 "@ + text::dec_spec(elapsed_ms / 1000)
                + "s"@,
    {
        if !audio_file_exists {
            return String::new();
        }
        let seconds = elapsed_ms / 1000;
        let mut r = String::new();
        r.append("…録音中 ");
        let digits = text::u64_to_string(seconds);
        r.append(digits.as_str());
        r.append("s");
        proof {
            assert(Seq::<char>::empty() + "…録音中 "@ =~= "…録音中 "@);
        }
        r
    }
}

/// Where the model artifact is downloaded from on first use.
pub fn model_download_url(model: ModelSize) -> (r: &'static str)
    ensures
        model == ModelSize::Small ==> r@
            == "https://huggingface.co/ggerganov/whisper.cpp/resolve/main/ggml-small.bin"@,
        model == ModelSize::Medium ==> r@
            == "https://huggingface.co/ggerganov/whisper.cpp/resolve/main/ggml-medium.bin"@,
{
    match model {
        ModelSize::Small => "https://huggingface.co/ggerganov/whisper.cpp/resolve/main/ggml-small.bin",
        ModelSize::Medium => "https://huggingface.co/ggerganov/whisper.cpp/resolve/main/ggml-medium.bin",
    }
}

/// The download percentage relayed while fetching the model: the rounded
/// share of `downloaded` in `total`, held below one hundred until the
/// artifact is fully in place.
pub open spec fn rounded_pct(downloaded: u64, total: u64) -> int {
    (200 * (downloaded as int) + (total as int)) / (2 * (total as int))
}

pub fn download_progress_pct(downloaded: u64, total: u64) -> (pct: u8)
    requires
        0 < total,
        downloaded <= total,
    ensures
        pct == if rounded_pct(downloaded, total) < 99 {
            rounded_pct(downloaded, total)
        } else {
            99int
        },
{
    let n: u128 = 200 * (downloaded as u128) + (total as u128);
    let d: u128 = 2 * (total as u128);
    let q: u128 = n / d;
    proof {
        assert(q == rounded_pct(downloaded, total));
    }
    if q < 99 {
        q as u8
    } else {
        99
    }
}

/// Turns the timed outcome of model preparation into the pipeline's
/// result: a deadline overrun becomes the distinct model-timeout error,
/// everything else passes through.
pub fn interpret_model_ready(r: Timed<Result<(), AppError>>, timeout_details: &str) -> (out: Result<
    (),
    AppError,
>)
    ensures
        r is TimedOut ==> (out matches Err(e) && e.user_message@
            == "モデル準備がタイムアウトしました。ネットワークまたは容量を確認してください"@ && e.details@ == timeout_details@),
        r matches Timed::Completed(x) ==> out == x,
{
    match r {
        Timed::Completed(x) => x,
        Timed::TimedOut => Err(crate::error::model_timeout_error(timeout_details)),
    }
}

/// Turns the timed outcome of the final transcription into the pipeline's
/// result: a deadline overrun becomes the distinct transcription-timeout
/// error, everything else passes through.
pub fn interpret_final_transcription(
    r: Timed<Result<(String, u64), AppError>>,
    timeout_details: &str,
) -> (out: Result<(String, u64), AppError>)
    ensures
        r is TimedOut ==> (out matches Err(e) && e.user_message@
            == "文字起こし処理がタイムアウトしました"@ && e.details@ == timeout_details@),
        r matches Timed::Completed(x) ==> out == x,
{
    match r {
        Timed::Completed(x) => x,
        Timed::TimedOut => Err(crate::error::transcription_timeout_error(timeout_details)),
    }
}

/// Chooses the final text from what the transcription tool produced: the
/// trimmed sidecar file when it has content, otherwise the trimmed
/// standard output.
pub fn select_final_text(txt_file: Option<String>, stdout_text: &str) -> (r: String)
    ensures
        ({
            let from_file = match txt_file {
                Some(t) => text::trim_spec(t@),
                None => Seq::<char>::empty(),
            };
            r@ == if from_file.len() > 0 {
                from_file
            } else {
                text::trim_spec(stdout_text@)
            }
        }),
{
    let trimmed_file = match &txt_file {
        Some(t) => {
            let v = text::str_to_chars(t.as_str());
            proof {
                assert(v@.subrange(0, v@.len() as int) =~= v@);
            }
            text::trimmed_subrange(&v, 0, v.len())
        },
        None => Vec::new(),
    };
    if trimmed_file.len() > 0 {
        text::chars_to_string(&trimmed_file)
    } else {
        let v = text::str_to_chars(stdout_text);
        proof {
            assert(v@.subrange(0, v@.len() as int) =~= v@);
        }
        let trimmed = text::trimmed_subrange(&v, 0, v.len());
        text::chars_to_string(&trimmed)
    }
}

} // verus!
