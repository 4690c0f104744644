//! Identifiers: UUIDs carried as their 128-bit value, parsed from and
//! rendered to text by the `uuid` crate.

use vstd::prelude::*;

verus! {

#[verifier::external_type_specification]
#[verifier::external_body]
pub struct ExUuidError(uuid::Error);

/// What `Uuid::parse_str` gives back, the UUID taken as its value.
pub type ParsedUuid = Result<u128, uuid::Error>;

/// The value that `Uuid::parse_str` reads from a text, if it accepts it.
pub uninterp spec fn uuid_parse(text: Seq<char>) -> Option<u128>;

/// Lower-case hexadecimal digit for a value below sixteen.
pub open spec fn hex_char(d: int) -> char {
    if d < 10 { (('0' as int) + d) as char } else { (('a' as int) + d - 10) as char }
}

/// The `k`-th of the 32 hexadecimal digits of `v`, most significant first.
pub open spec fn hex_digit_of(v: u128, k: int) -> char {
    hex_char(((v >> ((4 * (31 - k)) as u128)) & 0xf) as int)
}

/// The hyphenated lower-case text of a UUID value, `8-4-4-4-12` digits,
/// as in `67e55044-10b1-426f-9247-bb680e5fe0c8`.
pub open spec fn uuid_hyphenated(v: u128) -> Seq<char> {
    Seq::new(36, |i: int|
        if i == 8 || i == 13 || i == 18 || i == 23 {
            '-'
        } else if i < 8 {
            hex_digit_of(v, i)
        } else if i < 13 {
            hex_digit_of(v, i - 1)
        } else if i < 18 {
            hex_digit_of(v, i - 2)
        } else if i < 23 {
            hex_digit_of(v, i - 3)
        } else {
            hex_digit_of(v, i - 4)
        })
}

/// A version-4 (random) UUID value: version nibble 4, variant bits `10`.
pub open spec fn is_random_uuid(v: u128) -> bool {
    (v >> 76u128) & 0xf == 4 && (v >> 62u128) & 0x3 == 2
}

/// `Uuid::parse_str`, the UUID taken as its `u128` value: `Ok` exactly when
/// the crate accepts the text, with the value it reads. Which forms the crate
/// accepts (hyphenated, simple, braced, URN, either case) is left to the name
/// `uuid_parse`.
#[verifier::external_body]
fn uuid_parse_str(text: &str) -> (r: ParsedUuid)
    ensures
        r is Ok <==> uuid_parse(text@) is Some,
        r matches Ok(v) ==> uuid_parse(text@) == Some(v),
{
    match uuid::Uuid::parse_str(text) {
        Ok(u) => Ok(u.as_u128()),
        Err(e) => Err(e),
    }
}

/// `Uuid::new_v4` taken as its `u128` value: random, with the version and
/// variant bits of a version-4 UUID set. It panics only when the operating
/// system's random source fails, which no `requires` can rule out.
#[verifier::external_body]
fn uuid_new_v4() -> (v: u128)
    ensures
        is_random_uuid(v),
{
    uuid::Uuid::new_v4().as_u128()
}

/// `Uuid::to_string` (hyphenated, lower case) of the UUID with this value;
/// `Uuid::parse_str` reads that text back as the same value.
#[verifier::external_body]
fn uuid_to_string(v: u128) -> (r: String)
    ensures
        r@ == uuid_hyphenated(v),
        uuid_parse(r@) == Some(v),
{
    uuid::Uuid::from_u128(v).to_string()
}

/// Reads a user id: `Some` with the UUID value exactly when the text is one
/// that `Uuid::parse_str` accepts.
pub fn parse_user_id(text: &str) -> (r: Option<u128>)
    ensures
        r == uuid_parse(text@),
{
    match uuid_parse_str(text) {
        Ok(v) => Some(v),
        Err(_) => None,
    }
}

/// A fresh random UUID value.
pub fn new_id() -> (v: u128)
    ensures
        is_random_uuid(v),
{
    uuid_new_v4()
}

/// The hyphenated text of a UUID value, which reads back as that value.
pub fn id_text(v: u128) -> (r: String)
    ensures
        r@ == uuid_hyphenated(v),
        uuid_parse(r@) == Some(v),
{
    uuid_to_string(v)
}

} // verus!
