//! Session identifiers: 128-bit values that are minted at random, sent to the
//! peer as text, and read back from text when a caller addresses a session.

use crate::error::MyError;
use vstd::prelude::*;

verus! {

/// The error of the uuid crate's parser. Nothing inside it is visible here.
#[verifier::external_type_specification]
#[verifier::external_body]
pub struct ExUuidError(uuid::Error);

/// The digit that stands for a value below sixteen.
pub open spec fn hex_digit(n: u128) -> char {
    seq!['0', '1', '2', '3', '4', '5', '6', '7', '8', '9', 'a', 'b', 'c', 'd', 'e', 'f'][n as int]
}

/// The `k`-th group of four bits of `id`, counted from the most significant.
pub open spec fn nibble(id: u128, k: int) -> u128 {
    (id >> ((4 * (31 - k)) as u128)) & 0xf
}

/// Whether a hyphen stands at position `p` of an identifier's text.
pub open spec fn is_hyphen_position(p: int) -> bool {
    p == 8 || p == 13 || p == 18 || p == 23
}

/// How many hyphens stand before position `p` of an identifier's text.
pub open spec fn hyphens_before(p: int) -> int {
    (if p > 8 { 1int } else { 0 }) + (if p > 13 { 1int } else { 0 }) + (if p > 18 { 1int } else { 0 })
        + (if p > 23 { 1int } else { 0 })
}

/// The text of an identifier: its thirty-two hexadecimal digits in lower
/// case, most significant first, in groups of 8, 4, 4, 4 and 12 with a hyphen
/// between two groups.
pub open spec fn hyphenated(id: u128) -> Seq<char> {
    Seq::new(
        36,
        |p: int|
            if is_hyphen_position(p) {
                '-'
            } else {
                hex_digit(nibble(id, p - hyphens_before(p)))
            },
    )
}

/// An identifier in the form in which they are minted: version 4, with the
/// variant of RFC 9562.
pub open spec fn is_minted_form(id: u128) -> bool {
    id & 0x0000_0000_0000_f000_c000_0000_0000_0000 == 0x0000_0000_0000_4000_8000_0000_0000_0000
}

/// What `Uuid::parse_str` reads from a text: the identifier, or nothing where
/// the text is none of the forms that the parser accepts.
pub uninterp spec fn parsed(text: Seq<char>) -> Option<u128>;

/// Calls `Uuid::parse_str` and takes the identifier as a number. The outcome
/// is [`parsed`] of the text; the hyphenated text of an identifier is read
/// back as that identifier.
#[verifier::external_body]
fn parse_uuid(text: &str) -> (r: Result<u128, uuid::Error>)
    ensures
        r is Ok <==> parsed(text@) is Some,
        r is Ok ==> parsed(text@) == Some(r->Ok_0),
        forall|id: u128| text@ == hyphenated(id) ==> r is Ok && r->Ok_0 == id,
{
    match uuid::Uuid::parse_str(text) {
        Ok(id) => Ok(id.as_u128()),
        Err(e) => Err(e),
    }
}

/// Calls `to_string` on an error of the uuid crate's parser, which prints the
/// error through its `Display`. Nothing is claimed of the text.
#[verifier::external_body]
fn uuid_error_text(e: uuid::Error) -> String {
    e.to_string()
}

/// Calls `to_string` on the `Uuid` of the given number. The `Display` of a
/// `Uuid` is its hyphenated form in lower case, which [`hyphenated`] spells
/// out digit by digit.
#[verifier::external_body]
pub(crate) fn uuid_text(id: u128) -> (s: String)
    ensures
        s@ == hyphenated(id),
{
    uuid::Uuid::from_u128(id).to_string()
}

/// Calls `Uuid::new_v4`. The value is random but for the bits that mark it
/// as version 4 and as of the RFC's variant. The uuid crate panics where the
/// system has no random bytes to give; no argument can bring that about.
#[verifier::external_body]
pub(crate) fn random_uuid() -> (id: u128)
    ensures
        is_minted_form(id),
{
    uuid::Uuid::new_v4().as_u128()
}

/// Reads the identifier by which a caller addresses a session.
///
/// Succeeds on every text that the parser accepts, the hyphenated text of an
/// identifier among them, and fails with `InvalidUuid` on every other.
pub fn parse_client_id(text: &str) -> (r: Result<u128, MyError>)
    ensures
        match parsed(text@) {
            Some(id) => r is Ok && r->Ok_0 == id,
            None => r is Err && r->Err_0 is InvalidUuid,
        },
        forall|id: u128| text@ == hyphenated(id) ==> r is Ok && r->Ok_0 == id,
{
    match parse_uuid(text) {
        Ok(id) => Ok(id),
        Err(e) => Err(MyError::InvalidUuid(uuid_error_text(e))),
    }
}

} // verus!
