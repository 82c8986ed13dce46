//! Voice chat: the assistant listens until the speaker falls silent, answers,
//! and listens again.

use crate::stt::{capture_of, opt_str_text, transcribe_until_silence, Capture, SttError, StopRule};
use crate::text::{trim, trimmed};
use vstd::prelude::*;

verus! {

/// How long the speaker may be silent before an utterance counts as over, in milliseconds.
pub const SILENCE_MS: u64 = 900;

/// The longest that one utterance is listened to, in seconds.
pub const MAX_SECS: u64 = 20;

/// What voice chat does next.
pub enum ChatStep {
    /// Make this capture and come back with what was heard.
    Listen(Capture),
    /// Answer this utterance, say the answer, and come back with nothing heard.
    Answer(String),
}

/// One step of voice chat, from what the last capture held, or from nothing
/// where a capture is due. An utterance of white space only is passed over
/// and the next capture is due. Any other utterance is to be answered, as
/// it was heard.
pub fn run(model_path: Option<&str>, heard: Option<&str>) -> (r: Result<ChatStep, SttError>)
    ensures
        match heard {
            Some(text) if trimmed(text@).len() > 0 => r matches Ok(ChatStep::Answer(said))
                && said@ == text@,
            _ => match r {
                Ok(ChatStep::Listen(c)) => capture_of(
                    opt_str_text(model_path),
                    StopRule::OnSilence { silence_ms: SILENCE_MS, max_secs: MAX_SECS },
                    Ok(c),
                ),
                Ok(ChatStep::Answer(_)) => false,
                Err(e) => model_path is None && e == SttError::ModelPathNotSet,
            },
        },
{
    match heard {
        Some(text) => {
            if trim(text).unicode_len() > 0 {
                return Ok(ChatStep::Answer(String::from_str(text)));
            }
        },
        None => {},
    }
    match transcribe_until_silence(model_path, SILENCE_MS, MAX_SECS) {
        Ok(c) => Ok(ChatStep::Listen(c)),
        Err(e) => Err(e),
    }
}

} // verus!
