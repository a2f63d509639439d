//! HTTP status codes and the text that describes them.

use vstd::prelude::*;

verus! {

/// The one status that counts as success.
pub const STATUS_OK: u16 = 200;

/// The numbers that are HTTP status codes: three decimal digits, the first
/// of them not zero.
pub open spec fn is_status_code(code: u16) -> bool {
    100 <= code <= 999
}

/// The text that `http::StatusCode` displays for the status `code`: the
/// number followed by the reason phrase that belongs to it, such as
/// `404 Not Found`. It is meaningful for status codes only.
pub uninterp spec fn status_line(code: u16) -> Seq<char>;

/// Makes an `http::StatusCode` of `code` with `StatusCode::from_u16` and
/// returns the text that its `Display` writes.
///
/// Believed, not proved: the conversion succeeds for exactly the numbers
/// from 100 to 999, and the text is what `status_line` names.
#[verifier::external_body]
pub(crate) fn display_status(code: u16) -> (text: Option<String>)
    ensures
        text is Some <==> is_status_code(code),
        text matches Some(line) ==> line@ == status_line(code),
{
    match http::StatusCode::from_u16(code) {
        Ok(status) => Some(status.to_string()),
        Err(_) => None,
    }
}

} // verus!
