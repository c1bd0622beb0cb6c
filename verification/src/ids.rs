//! Session identifiers: 128-bit values, written as UUID text on the wire.

use uuid::Uuid;
use vstd::prelude::*;

verus! {

/// The identifier that UUID text stands for, if the text is well formed.
pub uninterp spec fn parsed_uuid(text: Seq<char>) -> Option<u128>;

/// The hyphenated lower-case UUID text of an identifier.
pub uninterp spec fn uuid_text(id: u128) -> Seq<char>;

/// Whether an identifier has the form of a random UUID: version 4, in the
/// standard variant. The other 122 bits are free.
pub open spec fn is_random_id(id: u128) -> bool {
    (id >> 76) & 0xf == 4 && (id >> 62) & 0x3 == 2
}

/// Calls `Uuid::new_v4` and takes the value with `Uuid::as_u128`. The value
/// is random; `new_v4` sets its version to 4 and its variant to the standard
/// one, and nothing else is said of it.
#[verifier::external_body]
pub(crate) fn fresh_id() -> (r: u128)
    ensures
        is_random_id(r),
{
    Uuid::new_v4().as_u128()
}

/// Calls `Uuid::parse_str` and takes the value with `Uuid::as_u128`. The
/// result is named `parsed_uuid`; a parse error is `None`.
#[verifier::external_body]
pub(crate) fn uuid_parse(text: &str) -> (r: Option<u128>)
    ensures
        r == parsed_uuid(text@),
{
    match Uuid::parse_str(text) {
        Ok(u) => Some(u.as_u128()),
        Err(_) => None,
    }
}

/// Whether a character can stand in UUID text: a digit, a letter from `a`
/// to `f`, or a hyphen.
pub open spec fn is_uuid_char(c: char) -> bool {
    let n = c as u32;
    (0x30 <= n <= 0x39) || (0x61 <= n <= 0x66) || c == '-'
}

/// Calls `Uuid::from_u128` and formats the value with its `Display` impl.
/// The result is named `uuid_text`: 36 characters, lower-case hexadecimal
/// digits and hyphens; parsing it gives the identifier back.
#[verifier::external_body]
pub(crate) fn uuid_string(id: u128) -> (r: String)
    ensures
        r@ == uuid_text(id),
        parsed_uuid(r@) == Some(id),
        r@.len() == 36,
        forall|i: int| 0 <= i < r@.len() ==> is_uuid_char(#[trigger] r@[i]),
{
    Uuid::from_u128(id).to_string()
}

} // verus!
