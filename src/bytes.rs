//! Little-endian fixed-offset reads over a byte payload.
//!
//! A read that would run past the end of the payload yields `None`: absence,
//! never an error and never zero.
use vstd::prelude::*;

verus! {

/// The unsigned value of two bytes, least significant first.
pub open spec fn le16(b0: u8, b1: u8) -> int {
    b0 as int + 256 * (b1 as int)
}

/// The unsigned value of four bytes, least significant first.
pub open spec fn le32(b0: u8, b1: u8, b2: u8, b3: u8) -> int {
    b0 as int + 256 * (b1 as int) + 65536 * (b2 as int) + 16777216 * (b3 as int)
}

/// The two's-complement reading of a 16-bit unsigned value.
pub open spec fn signed16(v: int) -> int {
    if v < 32768 { v } else { v - 65536 }
}

/// The two's-complement reading of a 32-bit unsigned value.
pub open spec fn signed32(v: int) -> int {
    if v < 0x8000_0000 { v } else { v - 0x1_0000_0000 }
}

pub open spec fn spec_read_u8(p: Seq<u8>, off: int) -> Option<u8> {
    if 0 <= off < p.len() { Some(p[off]) } else { None }
}

pub open spec fn spec_read_u16(p: Seq<u8>, off: int) -> Option<u16> {
    if 0 <= off && off + 2 <= p.len() {
        Some(le16(p[off], p[off + 1]) as u16)
    } else {
        None
    }
}

pub open spec fn spec_read_i16(p: Seq<u8>, off: int) -> Option<i16> {
    if 0 <= off && off + 2 <= p.len() {
        Some(signed16(le16(p[off], p[off + 1])) as i16)
    } else {
        None
    }
}

pub open spec fn spec_read_u32(p: Seq<u8>, off: int) -> Option<u32> {
    if 0 <= off && off + 4 <= p.len() {
        Some(le32(p[off], p[off + 1], p[off + 2], p[off + 3]) as u32)
    } else {
        None
    }
}

pub open spec fn spec_read_i32(p: Seq<u8>, off: int) -> Option<i32> {
    if 0 <= off && off + 4 <= p.len() {
        Some(signed32(le32(p[off], p[off + 1], p[off + 2], p[off + 3])) as i32)
    } else {
        None
    }
}

/// The four little-endian bytes of `v`.
pub open spec fn le_bytes32(v: u32) -> Seq<u8> {
    seq![
        (v % 256) as u8,
        ((v / 256) % 256) as u8,
        ((v / 65536) % 256) as u8,
        ((v / 16777216) % 256) as u8,
    ]
}

pub open spec fn spec_read_u64(p: Seq<u8>, off: int) -> Option<u64> {
    if 0 <= off && off + 8 <= p.len() {
        Some(
            (le32(p[off], p[off + 1], p[off + 2], p[off + 3]) + 0x1_0000_0000 * le32(
                p[off + 4],
                p[off + 5],
                p[off + 6],
                p[off + 7],
            )) as u64,
        )
    } else {
        None
    }
}

/// The eight little-endian bytes of `v`.
pub open spec fn le_bytes64(v: u64) -> Seq<u8> {
    le_bytes32((v % 0x1_0000_0000) as u32) + le_bytes32((v / 0x1_0000_0000) as u32)
}

pub fn read_u8(payload: &[u8], offset: usize) -> (r: Option<u8>)
    ensures
        r == spec_read_u8(payload@, offset as int),
{
    if offset < payload.len() {
        Some(payload[offset])
    } else {
        None
    }
}

fn le16_exec(b0: u8, b1: u8) -> (r: u16)
    ensures
        r as int == le16(b0, b1),
{
    (b0 as u16) + (b1 as u16) * 256
}

fn le32_exec(b0: u8, b1: u8, b2: u8, b3: u8) -> (r: u32)
    ensures
        r as int == le32(b0, b1, b2, b3),
{
    (b0 as u32) + (b1 as u32) * 256 + (b2 as u32) * 65536 + (b3 as u32) * 16777216
}

pub fn read_u16(payload: &[u8], offset: usize) -> (r: Option<u16>)
    ensures
        r == spec_read_u16(payload@, offset as int),
{
    if offset < payload.len() && payload.len() - offset >= 2 {
        Some(le16_exec(payload[offset], payload[offset + 1]))
    } else {
        None
    }
}

pub fn read_i16(payload: &[u8], offset: usize) -> (r: Option<i16>)
    ensures
        r == spec_read_i16(payload@, offset as int),
{
    match read_u16(payload, offset) {
        Some(v) => {
            if v < 32768 {
                Some(v as i16)
            } else {
                Some(((v as i32) - 65536) as i16)
            }
        },
        None => None,
    }
}

pub fn read_u32(payload: &[u8], offset: usize) -> (r: Option<u32>)
    ensures
        r == spec_read_u32(payload@, offset as int),
{
    if offset < payload.len() && payload.len() - offset >= 4 {
        Some(
            le32_exec(
                payload[offset],
                payload[offset + 1],
                payload[offset + 2],
                payload[offset + 3],
            ),
        )
    } else {
        None
    }
}

pub fn read_i32(payload: &[u8], offset: usize) -> (r: Option<i32>)
    ensures
        r == spec_read_i32(payload@, offset as int),
{
    match read_u32(payload, offset) {
        Some(v) => {
            if v < 0x8000_0000 {
                Some(v as i32)
            } else {
                Some(((v as i64) - 0x1_0000_0000) as i32)
            }
        },
        None => None,
    }
}

pub fn read_u64(payload: &[u8], offset: usize) -> (r: Option<u64>)
    ensures
        r == spec_read_u64(payload@, offset as int),
{
    if offset < payload.len() && payload.len() - offset >= 8 {
        let lo = le32_exec(
            payload[offset],
            payload[offset + 1],
            payload[offset + 2],
            payload[offset + 3],
        );
        let hi = le32_exec(
            payload[offset + 4],
            payload[offset + 5],
            payload[offset + 6],
            payload[offset + 7],
        );
        Some((lo as u64) + (hi as u64) * 0x1_0000_0000)
    } else {
        None
    }
}

/// Reads the bit pattern of a little-endian IEEE-754 single at `offset`.
///
/// The library keeps such quantities as their raw 32-bit pattern; turning
/// them into numbers is left to the caller.
pub fn read_f32_bits(payload: &[u8], offset: usize) -> (r: Option<u32>)
    ensures
        r == spec_read_u32(payload@, offset as int),
{
    read_u32(payload, offset)
}

/// The four little-endian bytes of `v`.
pub fn u32_to_le(v: u32) -> (r: Vec<u8>)
    ensures
        r@ == le_bytes32(v),
{
    let mut r: Vec<u8> = Vec::new();
    r.push((v % 256) as u8);
    r.push(((v / 256) % 256) as u8);
    r.push(((v / 65536) % 256) as u8);
    r.push(((v / 16777216) % 256) as u8);
    assert(r@ =~= le_bytes32(v));
    r
}

/// The eight little-endian bytes of `v`.
pub fn u64_to_le(v: u64) -> (r: Vec<u8>)
    ensures
        r@ == le_bytes64(v),
{
    let mut r = u32_to_le((v % 0x1_0000_0000) as u32);
    let mut hi = u32_to_le((v / 0x1_0000_0000) as u32);
    r.append(&mut hi);
    r
}

/// Reading back the bytes of a value gives the value.
pub proof fn lemma_le_bytes32_round_trip(v: u32)
    ensures
        le32(le_bytes32(v)[0], le_bytes32(v)[1], le_bytes32(v)[2], le_bytes32(v)[3]) == v as int,
{
    let b = le_bytes32(v);
    assert(b[0] as int == v % 256);
    assert(b[1] as int == (v / 256) % 256);
    assert(b[2] as int == (v / 65536) % 256);
    assert(b[3] as int == (v / 16777216) % 256);
    assert((v as int) == v % 256 + 256 * ((v / 256) % 256) + 65536 * ((v / 65536) % 256)
        + 16777216 * ((v / 16777216) % 256)) by (nonlinear_arith);
}

/// Reading back the eight bytes of a value gives the value.
pub proof fn lemma_le_bytes64_round_trip(v: u64)
    ensures
        spec_read_u64(le_bytes64(v), 0) == Some(v),
{
    let lo = (v % 0x1_0000_0000) as u32;
    let hi = (v / 0x1_0000_0000) as u32;
    lemma_le_bytes32_round_trip(lo);
    lemma_le_bytes32_round_trip(hi);
    let b = le_bytes64(v);
    assert(b[0] == le_bytes32(lo)[0] && b[1] == le_bytes32(lo)[1] && b[2] == le_bytes32(lo)[2]
        && b[3] == le_bytes32(lo)[3]);
    assert(b[4] == le_bytes32(hi)[0] && b[5] == le_bytes32(hi)[1] && b[6] == le_bytes32(hi)[2]
        && b[7] == le_bytes32(hi)[3]);
    assert(v as int == lo as int + 0x1_0000_0000 * (hi as int));
}

/// Reading back the four bytes of a value gives the value.
pub proof fn lemma_read_le_bytes32(v: u32)
    ensures
        spec_read_u32(le_bytes32(v), 0) == Some(v),
{
    lemma_le_bytes32_round_trip(v);
}

} // verus!
