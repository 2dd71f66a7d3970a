//! 128-bit UUID values and the calls into the `uuid` crate that read, write
//! and derive them.
use vstd::prelude::*;
use vstd::arithmetic::power2::pow2;

verus! {

/// A lower-case hexadecimal digit.
pub open spec fn hex_char(d: int) -> char {
    seq!['0', '1', '2', '3', '4', '5', '6', '7', '8', '9', 'a', 'b', 'c', 'd', 'e', 'f'][d]
}

/// The `k`-th of the 32 hexadecimal digits of `v`, most significant first.
pub open spec fn hex_digit_at(v: u128, k: int) -> char {
    hex_char((v as int / pow2((124 - 4 * k) as nat) as int) % 16)
}

/// The hyphenated text of a UUID: 32 lower-case hex digits in groups of
/// 8-4-4-4-12, most significant first.
pub open spec fn uuid_text(v: u128) -> Seq<char> {
    Seq::new(
        36,
        |i: int|
            if i == 8 || i == 13 || i == 18 || i == 23 {
                '-'
            } else {
                hex_digit_at(
                    v,
                    i - (if i > 23 {
                        4int
                    } else if i > 18 {
                        3int
                    } else if i > 13 {
                        2int
                    } else if i > 8 {
                        1int
                    } else {
                        0int
                    }),
                )
            },
    )
}

/// What `Uuid::parse_str` reads from a text, as the value `as_u128` gives.
pub uninterp spec fn uuid_parsed(s: Seq<char>) -> Option<u128>;

/// The name-based (version 5, SHA-1) UUID of `name` in `namespace`.
pub uninterp spec fn uuid_v5(namespace: u128, name: Seq<u8>) -> u128;

/// Relies on `Uuid::from_u128` and uuid's `Display`, which writes the
/// hyphenated lower-case form.
#[verifier::external_body]
pub(crate) fn uuid_string(v: u128) -> (r: String)
    ensures
        r@ == uuid_text(v),
{
    uuid::Uuid::from_u128(v).to_string()
}

/// Relies on `Uuid::parse_str`, which accepts the simple, hyphenated, braced
/// and URN forms.
#[verifier::external_body]
pub(crate) fn parse_uuid(s: &str) -> (r: Option<u128>)
    ensures
        r == uuid_parsed(s@),
{
    match uuid::Uuid::parse_str(s) {
        Ok(u) => Some(u.as_u128()),
        Err(_) => None,
    }
}

/// Relies on `Uuid::new_v5`: a function of the namespace and the name bytes.
#[verifier::external_body]
pub(crate) fn new_v5(namespace: u128, name: &[u8]) -> (r: u128)
    ensures
        r == uuid_v5(namespace, name@),
{
    uuid::Uuid::new_v5(&uuid::Uuid::from_u128(namespace), name).as_u128()
}

/// Relies on `Uuid::new_v4`: a random UUID, so nothing is promised of it.
#[verifier::external_body]
pub(crate) fn new_v4() -> (r: u128) {
    uuid::Uuid::new_v4().as_u128()
}

} // verus!
