use vstd::prelude::*;

verus! {

/// Whether an HTTP status code counts as success (2xx).
pub open spec fn spec_is_success(code: int) -> bool {
    200 <= code < 300
}

/// Decides whether a received HTTP status code is a success status.
pub fn status_is_success(code: u16) -> (r: bool)
    ensures
        r == spec_is_success(code as int),
{
    200 <= code && code < 300
}

/// The canonical reason phrase registered for an HTTP status code, if any.
pub uninterp spec fn reason_of(code: int) -> Option<Seq<char>>;

/// Relies on http::StatusCode::from_u16, which accepts exactly the codes in
/// 100..=999, and http::StatusCode::canonical_reason, a fixed table from code
/// to reason phrase: together a function of the code alone.
#[verifier::external_body]
pub(crate) fn status_reason(code: u16) -> (r: Option<String>)
    ensures
        match r {
            Some(s) => reason_of(code as int) == Some(s@),
            None => reason_of(code as int) is None,
        },
{
    match http::StatusCode::from_u16(code) {
        Ok(status) => match status.canonical_reason() {
            Some(phrase) => Some(phrase.to_string()),
            None => None,
        },
        Err(_) => None,
    }
}

} // verus!
