//! Speech to text: what to capture, when to stop, and which text counts as
//! heard. The driver owns the microphone and the recogniser.

use vstd::prelude::*;

verus! {

/// Why nothing can be transcribed.
#[derive(Clone, Copy, Debug, PartialEq, Eq, Structural)]
pub enum SttError {
    /// The settings name no model for the recogniser.
    ModelPathNotSet,
}

impl SttError {
    /// The reason in words.
    pub fn reason(&self) -> (r: String)
        ensures
            r@ == "STT model path not set in config"@,
    {
        String::from_str("STT model path not set in config")
    }
}

/// When a capture ends.
#[derive(Clone, Copy, Debug, PartialEq, Eq, Structural)]
pub enum StopRule {
    /// After a fixed number of seconds.
    After { seconds: u64 },
    /// Once nothing was heard for `silence_ms` milliseconds, and after
    /// `max_secs` seconds at the latest.
    OnSilence { silence_ms: u64, max_secs: u64 },
}

/// A capture to make: the recogniser's model, and when to stop.
pub struct Capture {
    pub model_path: String,
    pub stop: StopRule,
}

/// How long one utterance is listened to, in seconds.
pub const ONCE_SECS: u64 = 4;

/// The capture of `model_path` that ends by `stop`, or the error where no model is named.
pub open spec fn capture_of(
    model_path: Option<Seq<char>>,
    stop: StopRule,
    r: Result<Capture, SttError>,
) -> bool {
    match model_path {
        None => r == Err::<Capture, SttError>(SttError::ModelPathNotSet),
        Some(path) => r matches Ok(capture) && capture.model_path@ == path && capture.stop == stop,
    }
}

/// The text of an optional string slice.
pub open spec fn opt_str_text(o: Option<&str>) -> Option<Seq<char>> {
    match o {
        Some(s) => Some(s@),
        None => None,
    }
}

fn capture(model_path: Option<&str>, stop: StopRule) -> (r: Result<Capture, SttError>)
    ensures
        capture_of(opt_str_text(model_path), stop, r),
{
    match model_path {
        Some(path) => Ok(Capture { model_path: String::from_str(path), stop }),
        None => Err(SttError::ModelPathNotSet),
    }
}

/// Plans a capture of `seconds` seconds.
pub fn transcribe_for_secs(model_path: Option<&str>, seconds: u64) -> (r: Result<Capture, SttError>)
    ensures
        capture_of(opt_str_text(model_path), StopRule::After { seconds }, r),
{
    capture(model_path, StopRule::After { seconds })
}

/// Plans the capture of one utterance: four seconds.
pub fn transcribe_once(model_path: Option<&str>) -> (r: Result<Capture, SttError>)
    ensures
        capture_of(opt_str_text(model_path), StopRule::After { seconds: ONCE_SECS }, r),
{
    transcribe_for_secs(model_path, ONCE_SECS)
}

/// Plans a capture that ends once nothing was heard for `silence_ms`
/// milliseconds, and after `max_secs` seconds at the latest.
pub fn transcribe_until_silence(
    model_path: Option<&str>,
    silence_ms: u64,
    max_secs: u64,
) -> (r: Result<Capture, SttError>)
    ensures
        capture_of(opt_str_text(model_path), StopRule::OnSilence { silence_ms, max_secs }, r),
{
    capture(model_path, StopRule::OnSilence { silence_ms, max_secs })
}

/// Whether a capture under `stop` is over when nothing was heard for
/// `silent_ms` milliseconds and `elapsed_ms` milliseconds have gone by since
/// it began.
pub open spec fn is_over(stop: StopRule, silent_ms: int, elapsed_ms: int) -> bool {
    match stop {
        StopRule::After { seconds } => elapsed_ms >= seconds * 1000,
        StopRule::OnSilence { silence_ms, max_secs } => silent_ms >= silence_ms || elapsed_ms
            >= max_secs * 1000,
    }
}

/// Whether the capture is over.
pub fn should_stop(stop: &StopRule, silent_ms: u64, elapsed_ms: u64) -> (r: bool)
    ensures
        r == is_over(*stop, silent_ms as int, elapsed_ms as int),
{
    match stop {
        StopRule::After { seconds } => elapsed_ms / 1000 >= *seconds,
        StopRule::OnSilence { silence_ms, max_secs } => silent_ms >= *silence_ms || elapsed_ms
            / 1000 >= *max_secs,
    }
}

/// `newer` unless it is empty, else `older`.
pub open spec fn preferred(older: Seq<char>, newer: Seq<char>) -> Seq<char> {
    if newer.len() > 0 {
        newer
    } else {
        older
    }
}

/// The transcript after the recogniser gave `result`, a partial result while
/// the capture runs or the final one once it is over: the result, or the
/// transcript as it was where the result is empty.
pub fn latest_heard(transcript: &str, result: &str) -> (out: String)
    ensures
        out@ == preferred(transcript@, result@),
{
    if result.unicode_len() > 0 {
        String::from_str(result)
    } else {
        String::from_str(transcript)
    }
}

} // verus!
