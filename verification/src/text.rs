//! Trusted bridges to the few `std` string operations that vstd leaves
//! unspecified, with contracts stated over vstd's own UTF-8 model.

use vstd::prelude::*;
use vstd::utf8::{decode_utf8, encode_utf8, valid_utf8};

verus! {

/// Relies on `String::push`: appends one character at the end of the string.
#[verifier::external_body]
pub fn push_char(s: &mut String, c: char)
    ensures
        final(s)@ == old(s)@.push(c),
{
    s.push(c);
}

/// Relies on `String::from_utf8`: returns `Ok` exactly when the bytes are
/// valid UTF-8, and then the string is their decoding.  The error case
/// carries the rendering of the failure, about which nothing is claimed.
#[verifier::external_body]
pub fn bytes_to_string(bytes: Vec<u8>) -> (r: Result<String, String>)
    ensures
        r is Ok <==> valid_utf8(bytes@),
        r matches Ok(s) ==> s@ == decode_utf8(bytes@),
{
    String::from_utf8(bytes).map_err(|e| e.to_string())
}

/// The UTF-8 encoding of a character sequence is at most four bytes per
/// character.
pub proof fn lemma_encode_utf8_len(chars: Seq<char>)
    ensures
        encode_utf8(chars).len() <= 4 * chars.len(),
    decreases chars.len(),
{
    if chars.len() == 0 {
    } else {
        assert(vstd::utf8::encode_scalar(chars[0] as u32).len() <= 4);
        lemma_encode_utf8_len(chars.drop_first());
    }
}

} // verus!
