//! Reading request headers: the visible-ASCII text of a header value, the
//! bearer token of an `authorization` header, the user id it names, and the
//! client address behind proxies.

use vstd::prelude::*;
use crate::errors::{api_error, is_error, ApiError, UNAUTHORIZED};
use crate::ids::{parse_user_id, uuid_parse};

verus! {

/// A byte that may stand in header text: visible ASCII or a tab.
pub open spec fn is_visible_byte(b: u8) -> bool {
    (32 <= b && b < 127) || b == 9
}

/// Every byte of a header value is visible ASCII (the condition under which
/// a header value reads as text).
pub open spec fn all_visible(raw: Seq<u8>) -> bool {
    forall|i: int| 0 <= i < raw.len() ==> is_visible_byte(#[trigger] raw[i])
}

/// ASCII bytes read as characters, one for one.
pub open spec fn bytes_as_chars(raw: Seq<u8>) -> Seq<char> {
    raw.map_values(|b: u8| b as char)
}

/// The bytes of `Bearer ` (with its trailing space).
pub open spec fn bearer_prefix() -> Seq<u8> {
    seq![66u8, 101u8, 97u8, 114u8, 101u8, 114u8, 32u8]
}

/// The value starts with `Bearer `.
pub open spec fn has_bearer_prefix(raw: Seq<u8>) -> bool {
    raw.len() >= 7 && raw.take(7) == bearer_prefix()
}

/// The byte of `,`, which separates the addresses of `x-forwarded-for`.
pub open spec fn comma_byte() -> u8 {
    44u8
}

/// `j` is where the first field of `raw` ends: at its first comma, or at its
/// end when it holds none.
pub open spec fn first_field_end(raw: Seq<u8>, j: int) -> bool {
    &&& 0 <= j <= raw.len()
    &&& j < raw.len() ==> raw[j] == comma_byte()
    &&& forall|i: int| 0 <= i < j ==> raw[i] != comma_byte()
}

/// The characters of the bytes `from..to` of `raw`.
fn chars_of(raw: &[u8], from: usize, to: usize) -> (r: String)
    requires
        from <= to <= raw@.len(),
    ensures
        r@ == bytes_as_chars(raw@.subrange(from as int, to as int)),
{
    let mut out = String::new();
    let mut i = from;
    while i < to
        invariant
            from <= i <= to <= raw@.len(),
            out@ == bytes_as_chars(raw@.subrange(from as int, i as int)),
        decreases to - i,
    {
        let c = raw[i] as char;
        crate::text::string_push(&mut out, c);
        assert(bytes_as_chars(raw@.subrange(from as int, i + 1)) =~= bytes_as_chars(
            raw@.subrange(from as int, i as int),
        ).push(c));
        i = i + 1;
    }
    out
}

/// Whether every byte of a header value is visible ASCII.
fn visible(raw: &[u8]) -> (r: bool)
    ensures
        r == all_visible(raw@),
{
    let mut i: usize = 0;
    while i < raw.len()
        invariant
            i <= raw@.len(),
            forall|k: int| 0 <= k < i ==> is_visible_byte(#[trigger] raw@[k]),
        decreases raw@.len() - i,
    {
        let b = raw[i];
        if !((32 <= b && b < 127) || b == 9) {
            return false;
        }
        i = i + 1;
    }
    true
}

/// The text of a header value, as `HeaderValue::to_str` reads it: `Some`
/// exactly when every byte is visible ASCII.
pub fn header_text(raw: &[u8]) -> (r: Option<String>)
    ensures
        r is Some <==> all_visible(raw@),
        r matches Some(t) ==> t@ == bytes_as_chars(raw@),
{
    if visible(raw) {
        let t = chars_of(raw, 0, raw.len());
        assert(raw@.subrange(0, raw@.len() as int) =~= raw@);
        Some(t)
    } else {
        None
    }
}

/// The token of an `authorization` header of the form `Bearer <token>`.
/// A missing header, one that is not visible ASCII, and one without the
/// `Bearer ` prefix are each refused with 401 and their own message.
pub fn bearer_token(header: Option<&[u8]>) -> (r: Result<String, ApiError>)
    ensures
        header is None ==> (r matches Err(e) && is_error(e, UNAUTHORIZED, "Missing auth header"@)),
        header is Some && !all_visible(header->0@) ==> (r matches Err(e) && is_error(
            e,
            UNAUTHORIZED,
            "Invalid auth header"@,
        )),
        header is Some && all_visible(header->0@) && !has_bearer_prefix(header->0@) ==> (
        r matches Err(e) && is_error(e, UNAUTHORIZED, "Invalid token format"@)),
        header is Some && all_visible(header->0@) && has_bearer_prefix(header->0@) ==> (
        r matches Ok(t) && t@ == bytes_as_chars(header->0@.skip(7))),
{
    match header {
        None => Err(api_error(UNAUTHORIZED, "Missing auth header")),
        Some(raw) => {
            if !visible(raw) {
                return Err(api_error(UNAUTHORIZED, "Invalid auth header"));
            }
            let prefix: [u8; 7] = [66u8, 101u8, 97u8, 114u8, 101u8, 114u8, 32u8];
            assert(prefix@ == bearer_prefix());
            if raw.len() < 7 {
                return Err(api_error(UNAUTHORIZED, "Invalid token format"));
            }
            let mut i: usize = 0;
            while i < 7
                invariant
                    header == Some(raw),
                    all_visible(raw@),
                    i <= 7 <= raw@.len(),
                    prefix@ == bearer_prefix(),
                    forall|k: int| 0 <= k < i ==> raw@[k] == #[trigger] bearer_prefix()[k],
                decreases 7 - i,
            {
                if raw[i] != prefix[i] {
                    assert(raw@.take(7)[i as int] != bearer_prefix()[i as int]);
                    return Err(api_error(UNAUTHORIZED, "Invalid token format"));
                }
                i = i + 1;
            }
            assert(raw@.take(7) =~= bearer_prefix());
            let t = chars_of(raw, 7, raw.len());
            assert(raw@.subrange(7, raw@.len() as int) =~= raw@.skip(7));
            Ok(t)
        },
    }
}

/// The user named by a verified token's subject: the token check failing is
/// refused with 401 `Invalid token`, a subject that is not a UUID with 401
/// `Invalid user ID`.
pub fn user_id_from_subject(subject: Option<&str>) -> (r: Result<u128, ApiError>)
    ensures
        subject is None ==> (r matches Err(e) && is_error(e, UNAUTHORIZED, "Invalid token"@)),
        subject is Some && uuid_parse(subject->0@) is None ==> (r matches Err(e) && is_error(
            e,
            UNAUTHORIZED,
            "Invalid user ID"@,
        )),
        subject is Some && uuid_parse(subject->0@) is Some ==> (r matches Ok(id) && id
            == uuid_parse(subject->0@)->0),
{
    match subject {
        None => Err(api_error(UNAUTHORIZED, "Invalid token")),
        Some(s) => match parse_user_id(s) {
            Some(id) => Ok(id),
            None => Err(api_error(UNAUTHORIZED, "Invalid user ID")),
        },
    }
}

/// The client address of a request: the first comma-separated field of
/// `x-forwarded-for` when that header is present and readable, else the whole
/// of `x-real-ip` when that one is, else `unknown`. Fields are not trimmed.
pub fn client_ip(forwarded_for: Option<&[u8]>, real_ip: Option<&[u8]>) -> (r: String)
    ensures
        forwarded_for is Some && all_visible(forwarded_for->0@) ==> exists|j: int|
            first_field_end(forwarded_for->0@, j) && r@ == bytes_as_chars(
                #[trigger] forwarded_for->0@.take(j),
            ),
        !(forwarded_for is Some && all_visible(forwarded_for->0@)) ==> (if real_ip is Some
            && all_visible(real_ip->0@) {
            r@ == bytes_as_chars(real_ip->0@)
        } else {
            r@ == "unknown"@
        }),
{
    if let Some(raw) = forwarded_for {
        if visible(raw) {
            let mut j: usize = 0;
            while j < raw.len() && raw[j] != 44u8
                invariant
                    j <= raw@.len(),
                    forall|i: int| 0 <= i < j ==> raw@[i] != comma_byte(),
                decreases raw@.len() - j,
            {
                j = j + 1;
            }
            let r = chars_of(raw, 0, j);
            assert(raw@.subrange(0, j as int) =~= raw@.take(j as int));
            assert(first_field_end(raw@, j as int));
            return r;
        }
    }
    if let Some(raw) = real_ip {
        if let Some(t) = header_text(raw) {
            return t;
        }
    }
    "unknown".to_owned()
}

/// A header made of `Bearer ` and a visible token is read back as that token
/// by `bearer_token`.
pub proof fn law_bearer_round_trip(token: Seq<u8>)
    requires
        all_visible(token),
    ensures
        all_visible(bearer_prefix() + token),
        has_bearer_prefix(bearer_prefix() + token),
        (bearer_prefix() + token).skip(7) == token,
{
    let h = bearer_prefix() + token;
    assert forall|i: int| 0 <= i < h.len() implies is_visible_byte(#[trigger] h[i]) by {
        if i >= 7 {
            assert(h[i] == token[i - 7]);
        }
    }
    assert(h.take(7) =~= bearer_prefix());
    assert(h.skip(7) =~= token);
}

/// The address taken from `x-forwarded-for` never holds a comma.
pub proof fn law_forwarded_field_has_no_comma(raw: Seq<u8>, j: int)
    requires
        first_field_end(raw, j),
    ensures
        forall|i: int| 0 <= i < j ==> (#[trigger] raw.take(j)[i]) != comma_byte(),
{
}

/// The bytes a header value may hold and still read as text are exactly the
/// visible ASCII bytes, 32 to 126, and the tab.
pub proof fn law_visible_bytes(b: u8)
    ensures
        is_visible_byte(b) <==> ((32 <= b && b <= 126) || b == 9),
{
}

/// A header value made only of bytes from 32 to 126 and tabs reads as text,
/// each byte as the character with its code.
pub proof fn law_printable_header_is_readable(raw: Seq<u8>)
    requires
        forall|i: int| 0 <= i < raw.len() ==> ((32 <= #[trigger] raw[i] && raw[i] <= 126) || raw[i] == 9),
    ensures
        all_visible(raw),
        forall|i: int| 0 <= i < raw.len() ==> (#[trigger] bytes_as_chars(raw)[i]) as u32 == raw[i] as u32,
        bytes_as_chars(raw).len() == raw.len(),
{
}

/// `Bearer ` followed by any token of bytes from 32 to 126 and tabs is read
/// back as that token: the prefix is the seven characters `Bearer `, and what
/// follows it is the token.
pub proof fn law_bearer_token_of_printable(token: Seq<u8>)
    requires
        forall|i: int| 0 <= i < token.len() ==> ((32 <= #[trigger] token[i] && token[i] <= 126) || token[i] == 9),
    ensures
        all_visible(bearer_prefix() + token),
        has_bearer_prefix(bearer_prefix() + token),
        (bearer_prefix() + token).skip(7) == token,
        bytes_as_chars(bearer_prefix()) == seq!['B', 'e', 'a', 'r', 'e', 'r', ' '],
{
    law_printable_header_is_readable(token);
    law_bearer_round_trip(token);
    assert(bytes_as_chars(bearer_prefix()) =~= seq!['B', 'e', 'a', 'r', 'e', 'r', ' ']);
}

/// A forwarded-for value of bytes from 32 to 126 and tabs (colons of IPv6
/// addresses included) is readable, and its first field ends at the first
/// `,` (byte 44), or at its end when it has none.
pub proof fn law_forwarded_printable_first_field(raw: Seq<u8>, j: int)
    requires
        forall|i: int| 0 <= i < raw.len() ==> ((32 <= #[trigger] raw[i] && raw[i] <= 126) || raw[i] == 9),
        0 <= j <= raw.len(),
        j < raw.len() ==> raw[j] == 44,
        forall|i: int| 0 <= i < j ==> raw[i] != 44,
    ensures
        all_visible(raw),
        first_field_end(raw, j),
{
    law_printable_header_is_readable(raw);
}

} // verus!
