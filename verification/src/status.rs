use vstd::prelude::*;
use crate::text::{decimal, decimal_text};

verus! {

/// The reason phrase that the HTTP crate keeps for a status code ("Not Found"
/// for 404), or `None` for a code that its table does not list.
pub uninterp spec fn canonical_reason_phrase(code: u16) -> Option<Seq<char>>;

/// Builds `reqwest::StatusCode::from_u16(code)` and asks it for
/// `StatusCode::canonical_reason()`. The contract claims only that the result is
/// the crate's phrase for `code` (named, not spelled out: the crate's table has
/// some sixty entries). Within `100..=999` `from_u16` always succeeds.
#[verifier::external_body]
fn canonical_reason(code: u16) -> (reason: Option<&'static str>)
    requires
        100 <= code <= 999,
    ensures
        match reason {
            Some(r) => canonical_reason_phrase(code) == Some(r@),
            None => canonical_reason_phrase(code) is None,
        },
{
    match reqwest::StatusCode::from_u16(code) {
        Ok(status) => status.canonical_reason(),
        Err(_) => None,
    }
}

/// What a status code prints as: its number, a space, and its reason phrase,
/// or "<unknown status code>" where the HTTP crate has none.
pub open spec fn status_line(code: u16) -> Seq<char> {
    decimal(code as nat) + " "@ + match canonical_reason_phrase(code) {
        Some(r) => r,
        None => "<unknown status code>"@,
    }
}

/// The text of a response status, as the status prints (e.g. "404 Not Found").
/// A response status always lies in `100..=999`.
pub fn status_text(code: u16) -> (text: String)
    requires
        100 <= code <= 999,
    ensures
        text@ == status_line(code),
{
    let mut text = decimal_text(code as u64);
    text.append(" ");
    match canonical_reason(code) {
        Some(r) => text.append(r),
        None => text.append("<unknown status code>"),
    }
    text
}

/// Whether a status code reports success: it lies in `200..300`.
pub fn status_is_success(code: u16) -> (success: bool)
    ensures
        success == (200 <= code && code < 300),
{
    200 <= code && code < 300
}

} // verus!
