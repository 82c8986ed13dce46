//! Voice mode: the assistant listens for its name, and only then for a query.

use crate::stt::{capture_of, opt_str_text, transcribe_for_secs, Capture, SttError, StopRule};
use crate::text::{any_occurs_in, chars_contain, chars_of, lowercase, occurs_in, to_lowercase};
use vstd::prelude::*;

verus! {

/// How long the assistant listens for its name, in seconds.
pub const WAKE_SECS: u64 = 2;

/// How long the assistant listens for the query, in seconds.
pub const QUERY_SECS: u64 = 5;

/// The spellings under which the recogniser hears the assistant's name.
pub open spec fn wake_words() -> Seq<Seq<char>> {
    seq!["milly"@, "mil ai"@, "milay"@, "meli"@]
}

/// Whether `lowered`, a text already in lowercase, holds one of the wake words.
pub fn names_wake_word(lowered: &str) -> (r: bool)
    ensures
        r == any_occurs_in(lowered@, wake_words()),
{
    let hay = chars_of(lowered);
    let a = chars_of("milly");
    let b = chars_of("mil ai");
    let c = chars_of("milay");
    let d = chars_of("meli");
    let r = chars_contain(&hay, &a) || chars_contain(&hay, &b) || chars_contain(&hay, &c)
        || chars_contain(&hay, &d);
    proof {
        let words = wake_words();
        assert(words[0] == a@ && words[1] == b@ && words[2] == c@ && words[3] == d@);
        if r {
            let k = if occurs_in(hay@, a@) {
                0int
            } else if occurs_in(hay@, b@) {
                1int
            } else if occurs_in(hay@, c@) {
                2int
            } else {
                3int
            };
            assert(occurs_in(hay@, words[k]));
        }
    }
    r
}

/// Whether what was heard holds the assistant's name, in any case of letters.
pub fn is_wake(heard: &str) -> (r: bool)
    ensures
        r == any_occurs_in(lowercase(heard@), wake_words()),
{
    let lowered = to_lowercase(heard);
    names_wake_word(lowered.as_str())
}

/// What was heard so far in one round of voice mode.
pub enum Heard {
    /// Nothing yet.
    Nothing,
    /// The short capture in which the name is looked for.
    First(String),
    /// The capture that followed the name.
    Query(String),
}

/// What a round of voice mode does next.
pub enum WakeStep {
    /// Make this capture and come back with what was heard.
    Listen(Capture),
    /// The round is over: the query, or nothing where the name was not heard.
    Done(Option<String>),
}

/// One step of a round of voice mode, from what was heard so far. The round
/// begins with a capture of two seconds. Where that capture holds the
/// assistant's name, a capture of five seconds follows, and what it holds is
/// the query. Where it does not, the round ends without a query. A capture
/// cannot be planned without a model for the recogniser.
pub fn listen_for_wake_and_query(
    model_path: Option<&str>,
    heard: &Heard,
) -> (r: Result<WakeStep, SttError>)
    ensures
        match *heard {
            Heard::Nothing => match r {
                Ok(WakeStep::Listen(c)) => capture_of(
                    opt_str_text(model_path),
                    StopRule::After { seconds: WAKE_SECS },
                    Ok(c),
                ),
                Ok(WakeStep::Done(_)) => false,
                Err(e) => model_path is None && e == SttError::ModelPathNotSet,
            },
            Heard::First(text) => if any_occurs_in(lowercase(text@), wake_words()) {
                match r {
                    Ok(WakeStep::Listen(c)) => capture_of(
                        opt_str_text(model_path),
                        StopRule::After { seconds: QUERY_SECS },
                        Ok(c),
                    ),
                    Ok(WakeStep::Done(_)) => false,
                    Err(e) => model_path is None && e == SttError::ModelPathNotSet,
                }
            } else {
                r matches Ok(WakeStep::Done(None))
            },
            Heard::Query(text) => r matches Ok(WakeStep::Done(Some(q))) && q@ == text@,
        },
{
    match heard {
        Heard::Nothing => match transcribe_for_secs(model_path, WAKE_SECS) {
            Ok(c) => Ok(WakeStep::Listen(c)),
            Err(e) => Err(e),
        },
        Heard::First(text) => {
            if is_wake(text.as_str()) {
                match transcribe_for_secs(model_path, QUERY_SECS) {
                    Ok(c) => Ok(WakeStep::Listen(c)),
                    Err(e) => Err(e),
                }
            } else {
                Ok(WakeStep::Done(None))
            }
        },
        Heard::Query(text) => Ok(WakeStep::Done(Some(text.clone()))),
    }
}

} // verus!
