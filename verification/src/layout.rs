//! The wire layout of a result buffer returned by a plugin's `process`.
//!
//! The layout is one success byte (zero means failure), a little-endian
//! 32-bit payload length, and then the payload bytes: the transformed text
//! on success, an error message on failure.  The host parses this layout
//! defensively: a declared length that would read past the end of the
//! buffer is rejected.

use vstd::bytes::{
    lemma_auto_spec_u32_to_from_le_bytes, spec_u32_from_le_bytes, spec_u32_to_le_bytes,
    u32_from_le_bytes, u32_to_le_bytes,
};
use vstd::prelude::*;

verus! {

/// The flag byte that encodes success (nonzero) or failure (zero).
pub open spec fn success_byte(success: bool) -> u8 {
    if success {
        1u8
    } else {
        0u8
    }
}

/// The encoded result: success byte, little-endian 32-bit payload length,
/// payload.
pub open spec fn result_layout(success: bool, payload: Seq<u8>) -> Seq<u8>
    recommends
        payload.len() <= u32::MAX,
{
    seq![success_byte(success)] + spec_u32_to_le_bytes(payload.len() as u32) + payload
}

/// The payload length that a result buffer declares in its header.
pub open spec fn declared_length(bytes: Seq<u8>) -> int
    recommends
        bytes.len() >= 5,
{
    spec_u32_from_le_bytes(bytes.subrange(1, 5)) as int
}

/// True when the buffer is large enough for its own declared length.
pub open spec fn well_formed_result(bytes: Seq<u8>) -> bool {
    bytes.len() >= 5 && 5 + declared_length(bytes) <= bytes.len()
}

/// Build the result buffer for a payload.
pub fn encode_result(success: bool, payload: &Vec<u8>) -> (r: Vec<u8>)
    requires
        payload@.len() + 5 <= u32::MAX,
    ensures
        r@ == result_layout(success, payload@),
{
    let mut out: Vec<u8> = Vec::new();
    out.push(if success {
        1u8
    } else {
        0u8
    });
    let mut header = u32_to_le_bytes(payload.len() as u32);
    out.append(&mut header);
    let mut i: usize = 0;
    while i < payload.len()
        invariant
            i <= payload@.len(),
            out@ =~= seq![success_byte(success)] + spec_u32_to_le_bytes(payload@.len() as u32)
                + payload@.subrange(0, i as int),
        decreases payload@.len() - i,
    {
        out.push(payload[i]);
        i += 1;
    }
    proof {
        assert(payload@.subrange(0, payload@.len() as int) =~= payload@);
        assert(out@ =~= result_layout(success, payload@));
    }
    out
}

/// Decode the five header bytes of a result buffer: the success flag and
/// the declared payload length.
pub fn header_fields(header: &Vec<u8>) -> (r: (bool, u32))
    requires
        header@.len() == 5,
    ensures
        r.0 == (header@[0] != 0),
        r.1 == spec_u32_from_le_bytes(header@.subrange(1, 5)),
{
    let flag = header[0] != 0;
    let mut length_bytes: Vec<u8> = Vec::new();
    length_bytes.push(header[1]);
    length_bytes.push(header[2]);
    length_bytes.push(header[3]);
    length_bytes.push(header[4]);
    proof {
        assert(length_bytes@ =~= header@.subrange(1, 5));
    }
    (flag, u32_from_le_bytes(length_bytes.as_slice()))
}

/// Parse a result buffer: the success flag and the payload, or nothing when
/// the buffer is shorter than its header and declared length ask for.
pub fn parse_result_bytes(bytes: &Vec<u8>) -> (r: Option<(bool, Vec<u8>)>)
    ensures
        r is Some <==> well_formed_result(bytes@),
        r matches Some(p) ==> p.0 == (bytes@[0] != 0) && p.1@ == bytes@.subrange(
            5,
            5 + declared_length(bytes@),
        ),
{
    if bytes.len() < 5 {
        return None;
    }
    let flag = bytes[0] != 0;
    let mut header: Vec<u8> = Vec::new();
    header.push(bytes[1]);
    header.push(bytes[2]);
    header.push(bytes[3]);
    header.push(bytes[4]);
    proof {
        assert(header@ =~= bytes@.subrange(1, 5));
    }
    let declared = u32_from_le_bytes(header.as_slice()) as usize;
    if bytes.len() - 5 < declared {
        return None;
    }
    let mut payload: Vec<u8> = Vec::new();
    let mut i: usize = 0;
    while i < declared
        invariant
            i <= declared,
            5 + declared <= bytes@.len() <= usize::MAX,
            declared == declared_length(bytes@),
            payload@ =~= bytes@.subrange(5, 5 + i as int),
        decreases declared - i,
    {
        payload.push(bytes[5 + i]);
        i += 1;
    }
    Some((flag, payload))
}

/// Law: parsing recovers exactly what was encoded, whatever the payload.
pub proof fn lemma_layout_round_trip(success: bool, payload: Seq<u8>)
    requires
        payload.len() + 5 <= u32::MAX,
    ensures
        well_formed_result(result_layout(success, payload)),
        declared_length(result_layout(success, payload)) == payload.len(),
        result_layout(success, payload)[0] == success_byte(success),
        result_layout(success, payload).subrange(5, 5 + payload.len() as int) == payload,
        result_layout(success, payload).len() == 5 + payload.len(),
{
    lemma_auto_spec_u32_to_from_le_bytes();
    let b = result_layout(success, payload);
    assert(b.subrange(1, 5) =~= spec_u32_to_le_bytes(payload.len() as u32));
    assert(b.subrange(5, 5 + payload.len() as int) =~= payload);
}

} // verus!
