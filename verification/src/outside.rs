//! The items of `reqwest` that the library's logic uses, and what is believed of them.
use vstd::prelude::*;


verus! {

/// A transport failure reported by `reqwest`: a connection, redirect, timeout or body
/// decoding error. The library only carries it through to its caller.
#[verifier::external_type_specification]
#[verifier::external_body]
pub struct ExReqwestError(reqwest::Error);

/// The text that `reqwest::StatusCode`'s `Display` gives for a status code: the code in
/// three digits, a space, and the canonical reason phrase, or `<unknown status code>`
/// for a code that has none.
pub uninterp spec fn status_display(code: u16) -> Seq<char>;

/// Calls `reqwest::StatusCode::from_u16` and `to_string` on the result. `from_u16`
/// accepts exactly the codes 100 to 999, which the `requires` keeps to; the text is the
/// one that `status_display` names.
#[verifier::external_body]
pub(crate) fn status_text(code: u16) -> (res: String)
    requires
        100 <= code <= 999,
    ensures
        res@ == status_display(code),
{
    reqwest::StatusCode::from_u16(code).unwrap().to_string()
}

/// Calls `reqwest::StatusCode::is_success`, which holds of the codes 200 to 299.
#[verifier::external_body]
pub(crate) fn status_is_success(code: u16) -> (res: bool)
    requires
        100 <= code <= 999,
    ensures
        res == (200 <= code && code < 300),
{
    reqwest::StatusCode::from_u16(code).unwrap().is_success()
}

} // verus!
