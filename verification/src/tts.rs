//! Text to speech: which voice speaks. The driver owns the engine.

use crate::settings::Settings;
use crate::text::{eq_ignore_ascii_case, same_ignoring_ascii_case, texts};
use vstd::prelude::*;

verus! {

/// What the engine is to say, and in which of its voices.
pub struct Utterance {
    /// The place of the voice among the engine's voices; `None` for the engine's own choice.
    pub voice: Option<usize>,
    pub text: String,
}

/// `at` is the place of the first of `voices` whose name is `wanted`, read
/// without ASCII case; `None` says that there is none.
pub open spec fn is_first_voice(voices: Seq<Seq<char>>, wanted: Seq<char>, at: Option<usize>) -> bool {
    match at {
        Some(i) => {
            &&& i < voices.len()
            &&& same_ignoring_ascii_case(voices[i as int], wanted)
            &&& forall|j: int| 0 <= j < i ==> !same_ignoring_ascii_case(#[trigger] voices[j], wanted)
        },
        None => forall|j: int|
            0 <= j < voices.len() ==> !same_ignoring_ascii_case(#[trigger] voices[j], wanted),
    }
}

/// Plans the speaking of `text`. `voices` holds the names of the engine's
/// voices, in the engine's order. The voice is the first one that bears the
/// configured name, read without ASCII case; where no name is configured, or
/// no voice bears it, the engine keeps its own.
pub fn speak(settings: &Settings, voices: &Vec<String>, text: &str) -> (u: Utterance)
    ensures
        u.text@ == text@,
        match settings.tts_voice {
            Some(wanted) => is_first_voice(texts(voices@), wanted@, u.voice),
            None => u.voice is None,
        },
{
    let mut voice: Option<usize> = None;
    match &settings.tts_voice {
        Some(wanted) => {
            let mut i: usize = 0;
            while i < voices.len()
                invariant_except_break
                    i <= voices.len(),
                    voice is None,
                    forall|j: int|
                        0 <= j < i ==> !same_ignoring_ascii_case(
                            #[trigger] texts(voices@)[j],
                            wanted@,
                        ),
                ensures
                    is_first_voice(texts(voices@), wanted@, voice),
                decreases voices.len() - i,
            {
                assert(texts(voices@)[i as int] == voices@[i as int]@);
                if eq_ignore_ascii_case(voices[i].as_str(), wanted.as_str()) {
                    voice = Some(i);
                    break;
                }
                i += 1;
            }
        },
        None => {},
    }
    Utterance { voice, text: String::from_str(text) }
}

} // verus!
