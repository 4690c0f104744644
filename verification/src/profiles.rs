//! Profile picture uploads.

use vstd::prelude::*;
use vstd::utf8::encode_utf8;
use crate::errors::{api_error, is_error, ApiError, BAD_REQUEST};

verus! {

/// The bytes of `data:image/`, with which an uploaded picture must start.
pub open spec fn image_data_prefix() -> Seq<u8> {
    seq![100u8, 97u8, 116u8, 97u8, 58u8, 105u8, 109u8, 97u8, 103u8, 101u8, 47u8]
}

/// Largest decoded picture size accepted, in bytes (2 MiB).
pub const MAX_PICTURE_BYTES: usize = 2097152;

/// The decoded size of a base64 payload of `len` bytes, as estimated: three
/// quarters of it, rounded down.
pub open spec fn estimated_size(len: int) -> int {
    len * 3 / 4
}

/// The bytes of a text in UTF-8.
pub open spec fn utf8_bytes(s: Seq<char>) -> Seq<u8> {
    encode_utf8(s)
}

/// Checks an uploaded picture: it must be a `data:image/` URL (else 400
/// `Invalid image format. Must be base64 data URL`) whose estimated decoded
/// size is at most 2 MiB (else 400 `Image too large. Max 2MB`).
pub fn check_profile_pic(image_data: &str) -> (r: Result<(), ApiError>)
    requires
        utf8_bytes(image_data@).len() * 3 <= usize::MAX,
    ensures
        ({
            let bytes = utf8_bytes(image_data@);
            let prefixed = bytes.len() >= 11 && bytes.take(11) == image_data_prefix();
            &&& !prefixed ==> (r matches Err(e) && is_error(
                e,
                BAD_REQUEST,
                "Invalid image format. Must be base64 data URL"@,
            ))
            &&& prefixed && estimated_size(bytes.len() as int) > MAX_PICTURE_BYTES ==> (
            r matches Err(e) && is_error(e, BAD_REQUEST, "Image too large. Max 2MB"@))
            &&& prefixed && estimated_size(bytes.len() as int) <= MAX_PICTURE_BYTES ==> r is Ok
        }),
{
    let bytes = image_data.as_bytes();
    let prefix: [u8; 11] = [100u8, 97u8, 116u8, 97u8, 58u8, 105u8, 109u8, 97u8, 103u8, 101u8, 47u8];
    assert(prefix@ == image_data_prefix());
    if bytes.len() < 11 {
        return Err(api_error(BAD_REQUEST, "Invalid image format. Must be base64 data URL"));
    }
    let mut i: usize = 0;
    while i < 11
        invariant
            i <= 11 <= bytes@.len(),
            bytes@ == utf8_bytes(image_data@),
            prefix@ == image_data_prefix(),
            forall|k: int| 0 <= k < i ==> bytes@[k] == #[trigger] image_data_prefix()[k],
        decreases 11 - i,
    {
        if bytes[i] != prefix[i] {
            assert(bytes@.take(11)[i as int] != image_data_prefix()[i as int]);
            return Err(api_error(BAD_REQUEST, "Invalid image format. Must be base64 data URL"));
        }
        i = i + 1;
    }
    assert(bytes@.take(11) =~= image_data_prefix());
    let size_estimate = image_data.len() * 3 / 4;
    if size_estimate > MAX_PICTURE_BYTES {
        return Err(api_error(BAD_REQUEST, "Image too large. Max 2MB"));
    }
    Ok(())
}

} // verus!
