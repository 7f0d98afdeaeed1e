//! Action identifiers: reading one from text and writing it back.

use vstd::prelude::*;

verus! {

/// The identifier that `Uuid::parse_str` reads from `text`, as its 128 bits;
/// `None` where it reads none.
pub uninterp spec fn uuid_of_text(text: Seq<char>) -> Option<u128>;

/// Reads an identifier with `Uuid::parse_str` and takes its bits with
/// `Uuid::as_u128`. Which texts are identifiers is left to the `uuid` crate:
/// the result is only given the name [`uuid_of_text`].
#[verifier::external_body]
pub(crate) fn parse_uuid(text: &str) -> (id: Option<u128>)
    ensures
        id == uuid_of_text(text@),
{
    match uuid::Uuid::parse_str(text) {
        Ok(id) => Some(id.as_u128()),
        Err(_) => None,
    }
}

/// The hexadecimal digit, in lower case, that writes `n`, for `n` below 16.
pub open spec fn hex_digit(n: int) -> char {
    if n < 10 {
        (('0' as u32 + n) as u32) as char
    } else {
        (('a' as u32 + n - 10) as u32) as char
    }
}

/// 16 to the power `k`.
pub open spec fn sixteen_to(k: nat) -> nat
    decreases k,
{
    if k == 0 {
        1
    } else {
        16 * sixteen_to((k - 1) as nat)
    }
}

/// The digit at place `k` of the 32 hexadecimal digits of `id`, the most
/// significant digit at place 0.
pub open spec fn uuid_digit(id: u128, k: int) -> char {
    hex_digit(((id as nat / sixteen_to((31 - k) as nat)) % 16) as int)
}

/// The number of hyphens before place `i` of an identifier's text.
pub open spec fn hyphens_before(i: int) -> int {
    if i < 8 {
        0
    } else if i < 13 {
        1
    } else if i < 18 {
        2
    } else if i < 23 {
        3
    } else {
        4
    }
}

/// The text of an identifier: its 32 hexadecimal digits in lower case, in
/// groups of 8, 4, 4, 4 and 12 with a hyphen between two groups.
pub open spec fn uuid_text(id: u128) -> Seq<char> {
    Seq::new(
        36,
        |i: int|
            if i == 8 || i == 13 || i == 18 || i == 23 {
                '-'
            } else {
                uuid_digit(id, i - hyphens_before(i))
            },
    )
}

/// Writes an identifier with `Uuid::from_u128` and the `Display` of `Uuid`,
/// which is its hyphenated form in lower case: the digits of the 128 bits
/// from the most significant on.
#[verifier::external_body]
pub(crate) fn render_uuid(id: u128) -> (text: String)
    ensures
        text@ == uuid_text(id),
{
    uuid::Uuid::from_u128(id).to_string()
}

} // verus!
