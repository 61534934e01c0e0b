//! Identifiers of rows: the 128 bits of a UUID, held as an integer.

use vstd::arithmetic::power::pow;
use vstd::prelude::*;

verus! {

/// Whether `id` carries the marks of a randomly drawn UUID: version four,
/// and the variant of RFC 9562.
pub open spec fn is_random_id(id: u128) -> bool {
    (id / 0x1000_0000_0000_0000_0000) % 16 == 4 && (id / 0x4000_0000_0000_0000) % 4 == 2
}

/// The lower-case hexadecimal digit for `n`, for `n` below sixteen.
pub open spec fn hex_digit(n: int) -> char {
    if n < 10 {
        ((48 + n) as u8) as char
    } else {
        ((87 + n) as u8) as char
    }
}

/// The identifier as 32 lower-case hexadecimal digits without hyphens, most
/// significant digit first.
pub open spec fn simple_text(id: u128) -> Seq<char> {
    Seq::new(32, |i: int| hex_digit((id as int / pow(16, (31 - i) as nat)) % 16))
}

/// Draws a fresh identifier with `uuid::Uuid::new_v4`. The value is random;
/// the contract states only the version and variant bits that the call sets
/// in every outcome.
#[verifier::external_body]
pub(crate) fn fresh_id() -> (id: u128)
    ensures
        is_random_id(id),
{
    uuid::Uuid::new_v4().as_u128()
}

/// Renders an identifier with `uuid::Uuid::simple`: the sixteen bytes, most
/// significant first, as two lower-case hexadecimal digits each.
#[verifier::external_body]
pub(crate) fn simple_string(id: u128) -> (out: String)
    ensures
        out@ == simple_text(id),
{
    uuid::Uuid::from_u128(id).simple().to_string()
}

} // verus!
