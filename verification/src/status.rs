//! The status of an HTTP answer, as it is shown in a message.

use crate::text::{decimal, decimal_text};
use vstd::prelude::*;

verus! {

/// The status `status` as the HTTP library prints it: the number, a space,
/// and the standard reason phrase of that number.
pub uninterp spec fn status_line(status: u16) -> Seq<char>;

/// A number that can be the status of an HTTP answer: three digits.
pub open spec fn is_status(status: u16) -> bool {
    100 <= status <= 999
}

/// `StatusCode::from_u16` of the HTTP library, which reqwest hands on, and
/// the `Display` of what it returns. Trusted: that the numbers from 100 to
/// 999, and no others, are status codes, and that the text depends on the
/// number alone. Nothing is claimed of the reason phrase.
#[verifier::external_body]
fn print_status(status: u16) -> (out: Option<String>)
    ensures
        out is Some <==> is_status(status),
        out matches Some(line) ==> line@ == status_line(status),
{
    reqwest::StatusCode::from_u16(status).ok().map(|code| code.to_string())
}

/// How `status` is shown: the number with its reason phrase; the bare number
/// where it is none that an HTTP answer can carry.
pub open spec fn status_text(status: u16) -> Seq<char> {
    if is_status(status) {
        status_line(status)
    } else {
        decimal_text(status as nat)
    }
}

/// Shows the status of an HTTP answer.
pub fn show_status(status: u16) -> (out: String)
    ensures
        out@ == status_text(status),
{
    match print_status(status) {
        Some(line) => line,
        None => decimal(status as u64),
    }
}

} // verus!
