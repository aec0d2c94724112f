//! 128-bit identifiers (users, sessions) and their text form.
use vstd::prelude::*;

verus! {

#[verifier::external_type_specification]
#[verifier::external_body]
pub struct ExUuidError(uuid::Error);

/// The value that `uuid::Uuid::parse_str` reads from a text, as a 128-bit
/// number (`None` where the text is refused).
pub uninterp spec fn uuid_parse(text: Seq<char>) -> Option<u128>;

/// The lowercase hexadecimal digit for `n < 16`.
pub open spec fn hex_digit(n: u128) -> char {
    if n < 10 {
        (48 + n) as char
    } else {
        (87 + n) as char
    }
}

/// Hex digit number `d` (from 0, most significant first) of `u`.
pub open spec fn nibble(u: u128, d: int) -> u128 {
    (u >> ((124 - 4 * d) as u128)) & 15
}

/// Number of the hex digit shown at position `k` of the hyphenated form.
pub open spec fn digit_at(k: int) -> int {
    if k > 23 {
        k - 4
    } else if k > 18 {
        k - 3
    } else if k > 13 {
        k - 2
    } else if k > 8 {
        k - 1
    } else {
        k
    }
}

/// The hyphenated form of an identifier, as `Uuid`'s `Display` writes it:
/// 32 lowercase hex digits, most significant first, in groups of 8, 4, 4,
/// 4 and 12 joined by `-`.
pub open spec fn uuid_text(u: u128) -> Seq<char> {
    Seq::new(
        36,
        |k: int|
            if k == 8 || k == 13 || k == 18 || k == 23 {
                '-'
            } else {
                hex_digit(nibble(u, digit_at(k)))
            },
    )
}

/// Calls `uuid::Uuid::parse_str` and hands back the value as a number. The
/// result is named `uuid_parse`; the crate documents that every format it
/// writes, the hyphenated one among them, is read back.
#[verifier::external_body]
fn parse_uuid(text: &str) -> (r: Result<u128, uuid::Error>)
    ensures
        match r {
            Ok(v) => uuid_parse(text@) == Some(v),
            Err(_) => uuid_parse(text@) is None,
        },
        forall|u: u128| #[trigger] uuid_text(u) == text@ ==> r is Ok && r->Ok_0 == u,
{
    uuid::Uuid::parse_str(text).map(|id| id.as_u128())
}

/// Writes an identifier with `Uuid`'s `Display` (the hyphenated form).
#[verifier::external_body]
fn write_uuid(u: u128) -> (r: String)
    ensures
        r@ == uuid_text(u),
{
    uuid::Uuid::from_u128(u).to_string()
}

/// Reads an identifier from its text; `None` where the text is not one.
pub fn parse_id(text: &str) -> (r: Option<u128>)
    ensures
        r == uuid_parse(text@),
        forall|u: u128| #[trigger] uuid_text(u) == text@ ==> r == Some(u),
{
    match parse_uuid(text) {
        Ok(v) => Some(v),
        Err(_) => None,
    }
}

/// The hyphenated text of an identifier.
pub fn id_text(u: u128) -> (r: String)
    ensures
        r@ == uuid_text(u),
{
    write_uuid(u)
}

} // verus!
