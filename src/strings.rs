//! The bytes that a native string is made from, and the reading of a native
//! string's UTF-8 buffer back into Rust text.
use vstd::prelude::*;
use vstd::utf8::{decode_utf8, encode_utf8, valid_utf8};
use vstd::utf8::{decode_utf8_encode_utf8, encode_utf8_decode_utf8, encode_utf8_valid_utf8};

use crate::foundation::{NSUInteger, NSUTF8StringEncoding};

verus! {

/// The arguments of `-[NSString initWithBytes:length:encoding:]` for a Rust
/// string: its bytes, how many of them there are, and the encoding they are in.
pub struct InitBytes<'a> {
    pub bytes: &'a [u8],
    pub length: usize,
    pub encoding: NSUInteger,
}

/// The arguments with which a native string holding the text of `val` is made:
/// its UTF-8 bytes, their number, and `NSUTF8StringEncoding`.
pub fn init_bytes_of(val: &str) -> (r: InitBytes<'_>)
    ensures
        r.bytes@ == encode_utf8(val@),
        r.length == r.bytes@.len(),
        r.encoding == NSUTF8StringEncoding,
{
    let bytes = val.as_bytes();
    InitBytes { bytes, length: bytes.len(), encoding: NSUTF8StringEncoding }
}

/// Relies on `std::str::from_utf8`: it succeeds exactly on valid UTF-8, and the
/// text it returns is what those bytes encode.
#[verifier::external_body]
fn checked_str_from_utf8(bytes: &[u8]) -> (r: Option<&str>)
    ensures
        r is Some <==> valid_utf8(bytes@),
        r matches Some(s) ==> s@ == decode_utf8(bytes@),
{
    std::str::from_utf8(bytes).ok()
}

/// Reads the UTF-8 buffer of a native string as text: `None` exactly when the
/// bytes are not valid UTF-8; otherwise the text they encode, whose own UTF-8
/// encoding is those bytes again.
pub fn str_from_utf8_buffer(bytes: &[u8]) -> (r: Option<&str>)
    ensures
        r is Some <==> valid_utf8(bytes@),
        r matches Some(s) ==> s@ == decode_utf8(bytes@) && encode_utf8(s@) == bytes@,
{
    let r = checked_str_from_utf8(bytes);
    if r.is_some() {
        proof {
            decode_utf8_encode_utf8(bytes@);
        }
    }
    r
}

/// As [`str_from_utf8_buffer`], with the text copied into an owned `String`.
pub fn string_from_utf8_buffer(bytes: &[u8]) -> (r: Option<String>)
    ensures
        r is Some <==> valid_utf8(bytes@),
        r matches Some(s) ==> s@ == decode_utf8(bytes@) && encode_utf8(s@) == bytes@,
{
    match str_from_utf8_buffer(bytes) {
        Some(s) => Some(s.to_owned()),
        None => None,
    }
}

/// Text survives the trip through a native string: the bytes that
/// [`init_bytes_of`] hands over for `val` are valid UTF-8, and reading them back
/// with [`str_from_utf8_buffer`] gives the text of `val`.
pub proof fn lemma_text_round_trip(val: &str)
    ensures
        valid_utf8(encode_utf8(val@)),
        decode_utf8(encode_utf8(val@)) == val@,
{
    encode_utf8_valid_utf8(val@);
    encode_utf8_decode_utf8(val@);
}

} // verus!
