//! Identifiers: parsing and minting the UUIDs by which entities are known.
use vstd::prelude::*;
use crate::text::all_ascii_digits;

verus! {

/// What `uuid::Uuid::parse_str` makes of a string: the UUID as a 128-bit
/// big-endian integer, or nothing when the text is not a UUID.
pub uninterp spec fn parsed_uuid(s: Seq<char>) -> Option<u128>;

/// Calls `uuid::Uuid::parse_str` and reads the result with `Uuid::as_u128`.
/// The result is `parsed_uuid` of the text. The crate's parser accepts only
/// inputs of 32, 36, 38 or 45 bytes, and the hyphenated, braced and URN forms
/// need a `-`, `{` or `urn:` that a string of digits lacks, while the simple
/// form of 32 hex digits is accepted: so a string of ASCII digits parses
/// exactly when it has 32 of them, and a text of more than 45 characters
/// (hence more than 45 bytes) never parses.
#[verifier::external_body]
pub(crate) fn parse_uuid(s: &str) -> (r: Option<u128>)
    ensures
        r == parsed_uuid(s@),
        all_ascii_digits(s@) ==> (r is Some <==> s@.len() == 32),
        s@.len() > 45 ==> r is None,
{
    uuid::Uuid::parse_str(s).ok().map(|u| u.as_u128())
}

/// The lower-case hex digit of a value from 0 to 15.
pub open spec fn hex_digit(v: int) -> char {
    if v == 0 { '0' } else if v == 1 { '1' } else if v == 2 { '2' } else if v == 3 { '3' }
    else if v == 4 { '4' } else if v == 5 { '5' } else if v == 6 { '6' } else if v == 7 { '7' }
    else if v == 8 { '8' } else if v == 9 { '9' } else if v == 10 { 'a' } else if v == 11 { 'b' }
    else if v == 12 { 'c' } else if v == 13 { 'd' } else if v == 14 { 'e' } else { 'f' }
}

/// The `k`-th of the 32 hex digits of `id`, the most significant first.
pub open spec fn uuid_nibble(id: u128, k: int) -> int {
    (id as int / vstd::arithmetic::power::pow(16, (31 - k) as nat)) % 16
}

/// Which hex digit stands at place `i` of the hyphenated form: the places
/// 8, 13, 18 and 23 hold hyphens.
pub open spec fn uuid_digit_at(i: int) -> int {
    if i < 8 {
        i
    } else if i < 13 {
        i - 1
    } else if i < 18 {
        i - 2
    } else if i < 23 {
        i - 3
    } else {
        i - 4
    }
}

/// The text `uuid::Uuid`'s `Display` gives for an identifier: its 32 hex
/// digits, most significant first, in lower case, in groups of 8, 4, 4, 4
/// and 12 joined by hyphens.
pub open spec fn uuid_text(id: u128) -> Seq<char> {
    Seq::new(
        36,
        |i: int|
            if i == 8 || i == 13 || i == 18 || i == 23 {
                '-'
            } else {
                hex_digit(uuid_nibble(id, uuid_digit_at(i)))
            },
    )
}

/// A character of the hyphenated form of a UUID: a lower-case hex digit
/// or a hyphen.
pub open spec fn is_uuid_char(c: char) -> bool {
    ('0' <= c && c <= '9') || ('a' <= c && c <= 'f') || c == '-'
}

/// Calls `uuid::Uuid::from_u128` (the identifier's bytes, most significant
/// first) and formats the UUID with its `Display`, which writes the
/// hyphenated form in lower case: `uuid_text`. `Uuid::parse_str` accepts
/// that form and gives the same identifier back.
#[verifier::external_body]
pub(crate) fn uuid_to_string(id: u128) -> (r: String)
    ensures
        r@ == uuid_text(id),
        parsed_uuid(r@) == Some(id),
{
    uuid::Uuid::from_u128(id).to_string()
}

/// The hyphenated form of an identifier has 36 characters, each a
/// lower-case hex digit or a hyphen.
pub proof fn lemma_uuid_text_chars(id: u128)
    ensures
        uuid_text(id).len() == 36,
        forall|i: int| 0 <= i < uuid_text(id).len() ==> is_uuid_char(#[trigger] uuid_text(id)[i]),
{
}

/// Mints a fresh random identifier with `uuid::Uuid::new_v4`. Nothing is
/// promised of the value: it is random.
#[verifier::external_body]
pub(crate) fn new_random_id() -> (r: u128) {
    uuid::Uuid::new_v4().as_u128()
}

} // verus!
