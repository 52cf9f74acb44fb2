//! HTTP status codes.

use vstd::prelude::*;

verus! {

/// `403 Forbidden`.
pub const FORBIDDEN: u16 = 403;

/// `500 Internal Server Error`.
pub const INTERNAL_SERVER_ERROR: u16 = 500;

/// The error of `http` for a number that is no status code.
#[verifier::external_type_specification]
#[verifier::external_body]
pub struct ExInvalidStatusCode(http::status::InvalidStatusCode);

/// The numbers that are status codes: those of three digits.
pub open spec fn is_status(code: int) -> bool {
    100 <= code <= 999
}

/// Calls `http::StatusCode::from_u16`, which takes the numbers from 100 to 999
/// and no others, and gives the number of the code back.
#[verifier::external_body]
fn status_from_u16(code: u16) -> (result: Result<u16, http::status::InvalidStatusCode>)
    ensures
        result is Ok <==> is_status(code as int),
        result matches Ok(status) ==> status == code,
{
    http::StatusCode::from_u16(code).map(|status| status.as_u16())
}

/// The status for a configured number: the number itself if it is a status
/// code, and otherwise `403 Forbidden`.
pub open spec fn status_or_forbidden(code: int) -> int {
    if is_status(code) {
        code
    } else {
        FORBIDDEN as int
    }
}

/// The given number as a status code, or `403 Forbidden` if it is none.
pub fn valid_status(code: u16) -> (status: u16)
    ensures
        status == status_or_forbidden(code as int),
{
    match status_from_u16(code) {
        Ok(status) => status,
        Err(_) => FORBIDDEN,
    }
}

/// The low sixteen bits of a number, as an unsigned number.
pub open spec fn low_sixteen_bits(code: int) -> int {
    code % 0x1_0000
}

/// The status for a number off the wire. Only its low sixteen bits count.
pub fn wire_status(code: i32) -> (status: u16)
    ensures
        status == status_or_forbidden(low_sixteen_bits(code as int)),
{
    let narrow: u16 = #[verifier::truncate]
    (code as u16);
    assert(narrow == low_sixteen_bits(code as int)) by {
        let wide: u32 = #[verifier::truncate]
        (code as u32);
        assert(code as u16 == code as u32 as u16) by (bit_vector);
        assert(wide as u16 == wide % 0x1_0000) by (bit_vector);
        assert(code >= 0 ==> code as u32 == code) by (bit_vector);
        assert(code < 0 ==> code as u32 == code + 0x1_0000_0000) by (bit_vector);
    }
    valid_status(narrow)
}

} // verus!
