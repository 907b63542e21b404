//! Stream decoding: bounded zlib decompression of Flate-filtered stream
//! content, and UTF-8 interpretation of the decompressed bytes.

use vstd::prelude::*;
use vstd::utf8::{decode_utf8, valid_utf8};

verus! {

/// Cap on decompressed output, so that a decompression bomb is a decode
/// error instead of an unbounded allocation.
pub const MAX_DECODED_BYTES: u64 = 64 * 1024 * 1024;

/// What reading at most `limit` bytes of the zlib decompression of `data`
/// yields: nothing when the read fails inside that window. A function of the
/// two arguments alone.
pub uninterp spec fn zlib_inflated(data: Seq<u8>, limit: nat) -> Option<Seq<u8>>;

/// Relies on flate2::read::ZlibDecoder, driven through std::io::Read::take
/// and read_to_end: at most `limit` decompressed bytes come back, and the
/// outcome depends on `data` and `limit` alone.
#[verifier::external_body]
fn zlib_inflate(data: &Vec<u8>, limit: u64) -> (r: Option<Vec<u8>>)
    ensures
        match r {
            Some(v) => zlib_inflated(data@, limit as nat) == Some(v@) && v@.len() <= limit,
            None => zlib_inflated(data@, limit as nat) is None,
        },
{
    let decoder = flate2::read::ZlibDecoder::new(&data[..]);
    let mut bounded = std::io::Read::take(decoder, limit);
    let mut out = Vec::new();
    match std::io::Read::read_to_end(&mut bounded, &mut out) {
        Ok(_) => Some(out),
        Err(_) => None,
    }
}

/// What decoding Flate content yields: the full decompression when it exists
/// and stays within the cap, nothing on corrupt or oversized input.
pub open spec fn spec_decoded(data: Seq<u8>) -> Option<Seq<u8>> {
    match zlib_inflated(data, (MAX_DECODED_BYTES + 1) as nat) {
        Some(v) => if v.len() <= MAX_DECODED_BYTES {
            Some(v)
        } else {
            None
        },
        None => None,
    }
}

/// Decompress Flate-filtered content, treating output beyond the cap as a
/// decode failure.
pub fn decode_flate(data: &Vec<u8>) -> (r: Option<Vec<u8>>)
    ensures
        match r {
            Some(v) => spec_decoded(data@) == Some(v@),
            None => spec_decoded(data@) is None,
        },
{
    match zlib_inflate(data, MAX_DECODED_BYTES + 1) {
        Some(v) => {
            if v.len() as u64 <= MAX_DECODED_BYTES {
                Some(v)
            } else {
                None
            }
        },
        None => None,
    }
}

/// Relies on String::from_utf8: it succeeds exactly on valid UTF-8 and then
/// yields the bytes' decoding.
#[verifier::external_body]
pub fn utf8_decode(bytes: &Vec<u8>) -> (r: Option<String>)
    ensures
        r matches Some(s) ==> valid_utf8(bytes@) && s@ == decode_utf8(bytes@),
        r is None ==> !valid_utf8(bytes@),
{
    match String::from_utf8(bytes.clone()) {
        Ok(s) => Some(s),
        Err(_) => None,
    }
}

/// What String::from_utf8_lossy makes of the bytes: a function of the bytes
/// alone.
pub uninterp spec fn lossy_decoded(bytes: Seq<u8>) -> Seq<char>;

/// Relies on String::from_utf8_lossy: deterministic in the bytes, and on
/// valid UTF-8 it is the exact decoding.
#[verifier::external_body]
pub fn utf8_lossy(bytes: &Vec<u8>) -> (r: String)
    ensures
        r@ == lossy_decoded(bytes@),
        valid_utf8(bytes@) ==> r@ == decode_utf8(bytes@),
{
    String::from_utf8_lossy(bytes).into_owned()
}

} // verus!
