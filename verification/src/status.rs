//! HTTP status codes and how the client prints them.

use vstd::prelude::*;
use crate::text::{decimal, decimal_string};

verus! {

pub const HTTP_OK: u16 = 200;
pub const HTTP_CREATED: u16 = 201;
pub const HTTP_BAD_REQUEST: u16 = 400;
pub const HTTP_UNAUTHORIZED: u16 = 401;
pub const HTTP_NOT_FOUND: u16 = 404;

/// The standard reason phrase that the `http` crate knows for `code`
/// (`StatusCode::canonical_reason`), if `code` is a status code and has one.
pub uninterp spec fn canonical_reason(code: u16) -> Option<Seq<char>>;

/// Calls `reqwest::StatusCode::from_u16` and then `canonical_reason` on the
/// code. The contract names the phrase and states only that codes outside
/// 100..=999, which `from_u16` refuses, have none.
#[verifier::external_body]
fn reason_phrase(code: u16) -> (r: Option<String>)
    ensures
        match r {
            Some(s) => canonical_reason(code) == Some(s@),
            None => canonical_reason(code) is None,
        },
        (code < 100 || code > 999) ==> r is None,
{
    match reqwest::StatusCode::from_u16(code) {
        Ok(status) => status.canonical_reason().map(|phrase| phrase.to_string()),
        Err(_) => None,
    }
}

/// How a status code is printed: its number, a space and its reason phrase.
pub open spec fn status_display(code: u16) -> Seq<char> {
    decimal(code as nat) + " "@ + match canonical_reason(code) {
        Some(phrase) => phrase,
        None => "<unknown status code>"@,
    }
}

/// Prints `code` as the client's error messages show a status.
pub fn status_text(code: u16) -> (s: String)
    ensures
        s@ == status_display(code),
{
    let number = decimal_string(code as u64).concat(" ");
    match reason_phrase(code) {
        Some(phrase) => number.concat(phrase.as_str()),
        None => number.concat("<unknown status code>"),
    }
}

} // verus!
