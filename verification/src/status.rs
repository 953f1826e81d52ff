//! HTTP status codes as numbers, and the text that a response body carries
//! for each of them in its `kode` field.

use vstd::prelude::*;

verus! {

pub const OK: u16 = 200;
pub const CREATED: u16 = 201;
pub const BAD_REQUEST: u16 = 400;
pub const UNAUTHORIZED: u16 = 401;
pub const NOT_FOUND: u16 = 404;
pub const INTERNAL_SERVER_ERROR: u16 = 500;

/// The text of a status code as the HTTP library prints it: the number,
/// a space, and the reason phrase.
pub uninterp spec fn status_line(code: u16) -> Seq<char>;

/// Prints a status code the way `axum::http::StatusCode`'s `Display` does
/// (`to_string`). The contract claims that the text is a function of the
/// code alone, and gives its value for the five codes that this crate prints, as
/// the table in `http`'s status module lists their reason phrases.
#[verifier::external_body]
pub(crate) fn status_kode(code: u16) -> (text: String)
    requires
        100 <= code <= 999,
    ensures
        text@ == status_line(code),
        code == OK ==> text@ == "200 OK"@,
        code == CREATED ==> text@ == "201 Created"@,
        code == UNAUTHORIZED ==> text@ == "401 Unauthorized"@,
        code == NOT_FOUND ==> text@ == "404 Not Found"@,
        code == INTERNAL_SERVER_ERROR ==> text@ == "500 Internal Server Error"@,
{
    axum::http::StatusCode::from_u16(code).unwrap().to_string()
}

} // verus!
