//! Calendar link identifiers: uuids, parsed and printed by the `uuid` crate.

use vstd::prelude::*;
use vstd::arithmetic::power::pow;

verus! {

/// The lowercase hexadecimal digits, by value.
pub open spec fn hex_digits() -> Seq<char> {
    seq!['0', '1', '2', '3', '4', '5', '6', '7', '8', '9', 'a', 'b', 'c', 'd', 'e', 'f']
}

/// The `k`-th of the 32 hexadecimal digits of `v`, most significant first.
pub open spec fn nibble(v: u128, k: int) -> int {
    (v as int / pow(16, (31 - k) as nat)) % 16
}

/// The hyphenated lowercase text of the uuid with value `v`, as in
/// `67e55044-10b1-426f-9247-bb680e5fe0c8`: its 32 hex digits, most
/// significant first, in groups of 8, 4, 4, 4 and 12 joined by '-'.
pub open spec fn uuid_text(v: u128) -> Seq<char> {
    Seq::new(
        36,
        |p: int|
            if p == 8 || p == 13 || p == 18 || p == 23 {
                '-'
            } else {
                let k = if p < 8 {
                    p
                } else if p < 13 {
                    p - 1
                } else if p < 18 {
                    p - 2
                } else if p < 23 {
                    p - 3
                } else {
                    p - 4
                };
                hex_digits()[nibble(v, k)]
            },
    )
}

/// Whether `text` is the hyphenated lowercase text of some uuid.
pub open spec fn is_uuid_text(text: Seq<char>) -> bool {
    exists|v: u128| uuid_text(v) == text
}

/// The value that `uuid::Uuid::parse_str` reads, as a big-endian `u128`,
/// from a text that is not the hyphenated lowercase text of a uuid (it
/// also takes other forms: upper case, without hyphens, braced, urn), or
/// `None` where it refuses the text.
pub uninterp spec fn uuid_value_of_other_text(text: Seq<char>) -> Option<u128>;

/// The value that `uuid::Uuid::parse_str` reads from `text`, or `None` where
/// it refuses it: the hyphenated lowercase text of a uuid reads back as that
/// uuid; any other text as `uuid_value_of_other_text` says.
pub open spec fn uuid_value(text: Seq<char>) -> Option<u128> {
    if is_uuid_text(text) {
        Some(choose|v: u128| uuid_text(v) == text)
    } else {
        uuid_value_of_other_text(text)
    }
}

/// The message (`Display`) of the error that `uuid::Uuid::parse_str` returns
/// for a text that it refuses.
pub uninterp spec fn uuid_error_text(text: Seq<char>) -> Seq<char>;

/// Calls `uuid::Uuid::parse_str` and hands back the value as a `u128`
/// (`Uuid::as_u128`, big-endian) or the error's message. Trusted: the value
/// and the message are those that `uuid_value` and `uuid_error_text` give;
/// `uuid_value` claims, as the crate's source shows, that the 36-character
/// hyphenated text that the crate prints for a uuid reads back as it.
#[verifier::external_body]
pub(crate) fn parse_uuid(text: &str) -> (r: Result<u128, String>)
    ensures
        r matches Ok(v) ==> uuid_value(text@) == Some(v),
        r matches Err(e) ==> uuid_value(text@) is None && e@ == uuid_error_text(text@),
        r is Ok <==> uuid_value(text@) is Some,
        !is_uuid_text(text@) ==> (r matches Ok(v) ==> uuid_value_of_other_text(text@) == Some(v)),
{
    match uuid::Uuid::parse_str(text) {
        Ok(id) => Ok(id.as_u128()),
        Err(e) => Err(e.to_string()),
    }
}

/// Calls `uuid::Uuid::from_u128` and its `to_string` (`Display`), which the
/// crate writes as the lowercase hyphenated form. Trusted: the text is
/// `uuid_text(v)`.
#[verifier::external_body]
pub(crate) fn uuid_to_text(v: u128) -> (s: String)
    ensures
        s@ == uuid_text(v),
{
    uuid::Uuid::from_u128(v).to_string()
}

/// Calls `uuid::Uuid::new_v4`, a random uuid. Trusted: its source masks the
/// random bits so that the version nibble is 4 and the variant bits are `10`;
/// nothing else is known of the value.
#[verifier::external_body]
pub(crate) fn fresh_uuid() -> (v: u128)
    ensures
        (v >> 76u128) & 0xfu128 == 4,
        (v >> 62u128) & 0x3u128 == 2,
{
    uuid::Uuid::new_v4().as_u128()
}

/// No uuid text holds a '/'.
pub proof fn lemma_uuid_text_slash_free(v: u128)
    ensures
        forall|j: int| 0 <= j < uuid_text(v).len() ==> uuid_text(v)[j] != '/',
{
    assert forall|j: int| 0 <= j < uuid_text(v).len() implies uuid_text(v)[j] != '/' by {
        if !(j == 8 || j == 13 || j == 18 || j == 23) {
            let k = if j < 8 {
                j
            } else if j < 13 {
                j - 1
            } else if j < 18 {
                j - 2
            } else if j < 23 {
                j - 3
            } else {
                j - 4
            };
            let n = nibble(v, k);
            assert(0 <= n < 16);
            assert(hex_digits()[n] != '/');
        }
    }
}

} // verus!
