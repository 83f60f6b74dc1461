//! Universally unique identifiers, as 128-bit numbers.

use vstd::prelude::*;

verus! {

/// A universally unique identifier.
#[derive(Debug, Clone, Copy, PartialEq, Eq, Structural)]
pub struct Uuid {
    /// The 128 bits of the identifier, most significant first.
    pub bits: u128,
}

/// The lower-case hexadecimal digit for a number below 16.
pub open spec fn hex_digit(n: u128) -> char {
    if n < 10 {
        (0x30 + n) as char
    } else {
        (0x57 + n) as char
    }
}

/// The hexadecimal digit of `bits` at position `k`, counted from the left.
pub open spec fn hex_digit_at(bits: u128, k: int) -> char {
    hex_digit((bits >> ((124 - 4 * k) as u128)) & 0xf)
}

/// The hyphenated form of an identifier: groups of 8, 4, 4, 4 and 12
/// hexadecimal digits.
pub open spec fn uuid_chars(bits: u128) -> Seq<char> {
    Seq::new(
        36,
        |i: int|
            if i == 8 || i == 13 || i == 18 || i == 23 {
                '-'
            } else if i < 8 {
                hex_digit_at(bits, i)
            } else if i < 13 {
                hex_digit_at(bits, i - 1)
            } else if i < 18 {
                hex_digit_at(bits, i - 2)
            } else if i < 23 {
                hex_digit_at(bits, i - 3)
            } else {
                hex_digit_at(bits, i - 4)
            },
    )
}

/// The identifier that `uuid::Uuid::try_parse` reads from a text, if it reads one.
pub uninterp spec fn parsed_uuid(text: Seq<char>) -> Option<u128>;

/// `uuid::Uuid::try_parse`, and the bits of the identifier that it returns.
/// The contract names what it reads from a text [`parsed_uuid`], and says that
/// the hyphenated form of an identifier reads as that identifier.
#[verifier::external_body]
fn try_parse(text: &str) -> (bits: Option<u128>)
    ensures
        bits == parsed_uuid(text@),
        forall|id: u128| text@ == #[trigger] uuid_chars(id) ==> bits == Some(id),
{
    uuid::Uuid::try_parse(text).ok().map(|id| id.as_u128())
}

/// The `Display` form of `uuid::Uuid`: the hyphenated form, in lower case.
#[verifier::external_body]
fn hyphenated(bits: u128) -> (text: String)
    ensures
        text@ == uuid_chars(bits),
{
    uuid::Uuid::from_u128(bits).to_string()
}

/// An optional identifier as an optional number.
pub open spec fn uuid_option(bits: Option<u128>) -> Option<Uuid> {
    match bits {
        Some(b) => Some(Uuid { bits: b }),
        None => None,
    }
}

impl Uuid {
    /// The identifier that a text stands for, if it stands for one.
    pub fn parse(text: &str) -> (id: Option<Uuid>)
        ensures
            id == uuid_option(parsed_uuid(text@)),
            forall|bits: u128| text@ == #[trigger] uuid_chars(bits) ==> id == Some(Uuid { bits }),
    {
        match try_parse(text) {
            Some(bits) => Some(Uuid { bits }),
            None => None,
        }
    }

    /// The hyphenated form of the identifier.
    pub fn to_text(&self) -> (text: String)
        ensures
            text@ == uuid_chars(self.bits),
    {
        hyphenated(self.bits)
    }
}

/// An identifier is written as 36 characters: a hyphen after the first 8 digits and after
/// each of the next three groups of 4.
pub proof fn law_how_identifiers_are_written(bits: u128)
    ensures
        uuid_chars(bits).len() == 36,
        uuid_chars(bits)[8] == '-',
        uuid_chars(bits)[13] == '-',
        uuid_chars(bits)[18] == '-',
        uuid_chars(bits)[23] == '-',
        uuid_option(Some(bits)) == Some(Uuid { bits }),
        uuid_option(None) is None,
{
}

} // verus!
