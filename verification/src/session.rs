//! What the loops around the agent decide: when the console ends, which
//! utterance is passed over, and what the learning loop visits.

use crate::settings::Settings;
use crate::text::{eq_ignore_ascii_case, same_ignoring_ascii_case, trim, trimmed};
use vstd::prelude::*;

verus! {

/// How long the learning loop rests between two rounds where nothing is configured, in seconds.
pub const DEFAULT_LEARN_INTERVAL_SECS: u64 = 3600;

/// How long voice mode rests after an answer, in milliseconds, so that it
/// does not hear itself.
pub const VOICE_COOLDOWN_MS: u64 = 800;

/// A line that ends the console: `exit` or `quit`, in any case of ASCII
/// letters, with white space around it or without.
pub open spec fn ends_console(line: Seq<char>) -> bool {
    same_ignoring_ascii_case(trimmed(line), "exit"@) || same_ignoring_ascii_case(
        trimmed(line),
        "quit"@,
    )
}

/// Whether `line` ends the console.
pub fn is_exit(line: &str) -> (r: bool)
    ensures
        r == ends_console(line@),
{
    let word = trim(line);
    eq_ignore_ascii_case(word, "exit") || eq_ignore_ascii_case(word, "quit")
}

/// Whether `text` holds white space only, or nothing.
pub fn is_blank(text: &str) -> (r: bool)
    ensures
        r == (trimmed(text@).len() == 0),
{
    trim(text).unicode_len() == 0
}

/// How long the learning loop rests between two rounds, in seconds.
pub fn learn_interval(settings: &Settings) -> (secs: u64)
    ensures
        secs == match settings.learn_interval_secs {
            Some(configured) => configured,
            None => DEFAULT_LEARN_INTERVAL_SECS,
        },
{
    match settings.learn_interval_secs {
        Some(configured) => configured,
        None => DEFAULT_LEARN_INTERVAL_SECS,
    }
}

/// Whether there is anything for the learning loop to visit: URLs are
/// configured, and at least one.
pub fn has_learn_urls(settings: &Settings) -> (r: bool)
    ensures
        r == (settings.learn_urls is Some && settings.learn_urls->0@.len() > 0),
{
    match &settings.learn_urls {
        Some(urls) => urls.len() > 0,
        None => false,
    }
}

} // verus!
