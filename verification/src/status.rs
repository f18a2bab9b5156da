//! HTTP status classes, as the feed's answers are read.

use vstd::prelude::*;

verus! {

/// `StatusCode::is_success` of `reqwest` (the status code of the `http`
/// crate), on the status made of `code` by `StatusCode::from_u16`. Numbers
/// below 100 or above 999 are no status at all (`from_u16` refuses them) and
/// count as no success; of the others, exactly 200 to 299 are one.
#[verifier::external_body]
fn status_is_success(code: u16) -> (yes: bool)
    ensures
        yes == (200 <= code < 300),
{
    match reqwest::StatusCode::from_u16(code) {
        Ok(status) => status.is_success(),
        Err(_) => false,
    }
}

/// `StatusCode::is_server_error` of `reqwest` (the status code of the
/// `http` crate), on the status made of `code` by `StatusCode::from_u16`.
/// Numbers that `from_u16` refuses count as no server error; of the others,
/// exactly 500 to 599 are one.
#[verifier::external_body]
fn status_is_server_error(code: u16) -> (yes: bool)
    ensures
        yes == (500 <= code < 600),
{
    match reqwest::StatusCode::from_u16(code) {
        Ok(status) => status.is_server_error(),
        Err(_) => false,
    }
}

/// What an answer's status means for one fetch.
#[derive(Debug, Clone, Copy, PartialEq, Eq, Structural)]
pub enum StatusClass {
    /// 2xx: the body holds the item.
    Success,
    /// 5xx: the server failed; worth another try.
    ServerError,
    /// Anything else: the item is not there.
    Absent,
}

/// The class of `code`, as a mathematical function.
pub open spec fn status_class(code: u16) -> StatusClass {
    if 200 <= code < 300 {
        StatusClass::Success
    } else if 500 <= code < 600 {
        StatusClass::ServerError
    } else {
        StatusClass::Absent
    }
}

/// Classifies the status of an answer.
pub fn classify_status(code: u16) -> (class: StatusClass)
    ensures
        class == status_class(code),
{
    if status_is_success(code) {
        StatusClass::Success
    } else if status_is_server_error(code) {
        StatusClass::ServerError
    } else {
        StatusClass::Absent
    }
}

} // verus!
