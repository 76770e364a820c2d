//! The motion protocol codec.
//!
//! A pose record is exactly three 32-bit fields — pitch, yaw, roll —
//! carried over a fire-and-forget datagram as a 12-byte payload, each
//! field little-endian.  The fields are the IEEE-754 bit patterns of
//! the three angles; the library never computes on them, so they are
//! held and compared as exact 32-bit integers.  A payload of the wrong
//! length is a dropped record, never a fault.

use vstd::prelude::*;
use vstd::arithmetic::div_mod::lemma_fundamental_div_mod;

verus! {

/// A single pose record: the bit patterns of three 32-bit angle
/// fields, in radians — rotation about X (pitch), Y (yaw), Z (roll).
#[derive(Clone, Copy, Debug, PartialEq, Eq, Structural)]
pub struct MotionData {
    /// Bit pattern of the rotation about the X axis.
    pub pitch_bits: u32,
    /// Bit pattern of the rotation about the Y axis.
    pub yaw_bits: u32,
    /// Bit pattern of the rotation about the Z axis.
    pub roll_bits: u32,
}

/// Number of bytes in an encoded pose datagram.
pub const PAYLOAD_LEN: usize = 12;

/// Byte `k` (0-based, little-endian) of a 32-bit value.
pub open spec fn le_byte(v: u32, k: int) -> u8 {
    (((v as int) / pow256(k)) % 256) as u8
}

/// `256^k` for `k` in `0..4`, written out so no recursion is needed.
pub open spec fn pow256(k: int) -> int {
    if k <= 0 {
        1
    } else if k == 1 {
        256
    } else if k == 2 {
        65536
    } else {
        16777216
    }
}

/// The 32-bit value held by four little-endian bytes.
pub open spec fn u32_of_le(b0: u8, b1: u8, b2: u8, b3: u8) -> u32 {
    (b0 + 256 * b1 + 65536 * b2 + 16777216 * b3) as u32
}

/// The 12-byte payload of a record: pitch, yaw, roll, each
/// little-endian.
pub open spec fn encoded(rec: MotionData) -> Seq<u8> {
    seq![
        le_byte(rec.pitch_bits, 0),
        le_byte(rec.pitch_bits, 1),
        le_byte(rec.pitch_bits, 2),
        le_byte(rec.pitch_bits, 3),
        le_byte(rec.yaw_bits, 0),
        le_byte(rec.yaw_bits, 1),
        le_byte(rec.yaw_bits, 2),
        le_byte(rec.yaw_bits, 3),
        le_byte(rec.roll_bits, 0),
        le_byte(rec.roll_bits, 1),
        le_byte(rec.roll_bits, 2),
        le_byte(rec.roll_bits, 3),
    ]
}

/// The record a payload decodes to: `None` unless the length is
/// exactly 12.
pub open spec fn decoded(payload: Seq<u8>) -> Option<MotionData> {
    if payload.len() == 12 {
        Some(
            MotionData {
                pitch_bits: u32_of_le(payload[0], payload[1], payload[2], payload[3]),
                yaw_bits: u32_of_le(payload[4], payload[5], payload[6], payload[7]),
                roll_bits: u32_of_le(payload[8], payload[9], payload[10], payload[11]),
            },
        )
    } else {
        None
    }
}

/// Recomposing the four little-endian bytes of a value gives the
/// value back.
pub proof fn lemma_le_bytes_recompose(v: u32)
    ensures
        u32_of_le(le_byte(v, 0), le_byte(v, 1), le_byte(v, 2), le_byte(v, 3)) == v,
{
    let n = v as int;
    let v1 = n / 256;
    let v2 = v1 / 256;
    let v3 = v2 / 256;
    lemma_fundamental_div_mod(n, 256);
    lemma_fundamental_div_mod(v1, 256);
    lemma_fundamental_div_mod(v2, 256);
    assert(v1 == n / 256 && v2 == n / 65536 && v3 == n / 16777216) by {
        vstd::arithmetic::div_mod::lemma_div_denominator(n, 256, 256);
        vstd::arithmetic::div_mod::lemma_div_denominator(n, 65536, 256);
    }
    assert(v3 < 256) by {
        vstd::arithmetic::div_mod::lemma_div_is_ordered(n, 0xffff_ffff, 16777216);
    }
    assert(v3 >= 0) by {
        vstd::arithmetic::div_mod::lemma_div_pos_is_pos(v2, 256);
        vstd::arithmetic::div_mod::lemma_div_pos_is_pos(v1, 256);
        vstd::arithmetic::div_mod::lemma_div_pos_is_pos(n, 256);
    }
}

/// The round-trip law: encoding a record and decoding the resulting
/// payload reproduces the record, bit for bit.
pub proof fn lemma_protocol_round_trip(rec: MotionData)
    ensures
        decoded(encoded(rec)) == Some(rec),
{
    lemma_le_bytes_recompose(rec.pitch_bits);
    lemma_le_bytes_recompose(rec.yaw_bits);
    lemma_le_bytes_recompose(rec.roll_bits);
}

/// One little-endian byte of a 32-bit value, computed.
fn split_byte(v: u32, shift: u32) -> (b: u8)
    requires
        shift == 1 || shift == 256 || shift == 65536 || shift == 16777216,
    ensures
        shift == 1 ==> b == le_byte(v, 0),
        shift == 256 ==> b == le_byte(v, 1),
        shift == 65536 ==> b == le_byte(v, 2),
        shift == 16777216 ==> b == le_byte(v, 3),
{
    ((v / shift) % 256) as u8
}

/// Encode a record as its 12-byte datagram payload.
pub fn encode_motion(rec: &MotionData) -> (payload: Vec<u8>)
    ensures
        payload@ == encoded(*rec),
{
    let mut out: Vec<u8> = Vec::new();
    out.push(split_byte(rec.pitch_bits, 1));
    out.push(split_byte(rec.pitch_bits, 256));
    out.push(split_byte(rec.pitch_bits, 65536));
    out.push(split_byte(rec.pitch_bits, 16777216));
    out.push(split_byte(rec.yaw_bits, 1));
    out.push(split_byte(rec.yaw_bits, 256));
    out.push(split_byte(rec.yaw_bits, 65536));
    out.push(split_byte(rec.yaw_bits, 16777216));
    out.push(split_byte(rec.roll_bits, 1));
    out.push(split_byte(rec.roll_bits, 256));
    out.push(split_byte(rec.roll_bits, 65536));
    out.push(split_byte(rec.roll_bits, 16777216));
    proof {
        assert(out@ =~= encoded(*rec));
    }
    out
}

/// Recompose a 32-bit value from four little-endian bytes.
fn join_bytes(b0: u8, b1: u8, b2: u8, b3: u8) -> (v: u32)
    ensures
        v == u32_of_le(b0, b1, b2, b3),
{
    (b0 as u32) + 256 * (b1 as u32) + 65536 * (b2 as u32) + 16777216 * (b3 as u32)
}

/// Decode a datagram payload.  A payload that is not exactly 12 bytes
/// is a rejected record, reported as `None`; the caller keeps its
/// prior pose.
pub fn decode_motion(payload: &[u8]) -> (rec: Option<MotionData>)
    ensures
        rec == decoded(payload@),
{
    if payload.len() != 12 {
        return None;
    }
    let pitch_bits = join_bytes(payload[0], payload[1], payload[2], payload[3]);
    let yaw_bits = join_bytes(payload[4], payload[5], payload[6], payload[7]);
    let roll_bits = join_bytes(payload[8], payload[9], payload[10], payload[11]);
    Some(MotionData { pitch_bits, yaw_bits, roll_bits })
}

} // verus!
