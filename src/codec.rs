//! Datagram decryption: Salsa20 with a fixed key and a nonce taken from the
//! datagram itself, followed by a check of the magic word.
use vstd::prelude::*;
use salsa20::cipher::{KeyIvInit, StreamCipher};
use crate::bytes::{le_bytes32, read_u32, spec_read_u32, u32_to_le};

verus! {

/// Magic word found at offset 0 of every correctly decrypted datagram.
pub const PACKET_MAGIC: u32 = 0x47375330;

/// Length of the shortest datagram that carries a nonce.
pub const MIN_DATAGRAM_LEN: usize = 0x44;

/// Offset of the little-endian nonce word inside a datagram.
pub const IV_OFFSET: usize = 0x40;

/// XOR mask that turns the datagram's nonce word into the first nonce word.
pub const IV_MASK: u32 = 0xDEADBEAF;

#[derive(Clone, Copy, Debug, PartialEq, Eq, Structural)]
pub enum PacketError {
    /// The datagram is too short to hold a nonce.
    Malformed,
    /// The decrypted datagram does not start with the magic word.
    AuthFailed,
}

/// The Salsa20 keystream for a 32-byte key and an 8-byte nonce.
pub uninterp spec fn salsa20_keystream(key: Seq<u8>, nonce: Seq<u8>) -> Seq<u8>;

/// The cipher key: the first 32 bytes of "Simulator Interface Packet GT7 ver 0.0".
pub open spec fn key_bytes() -> Seq<u8> {
    seq![
        83u8, 105, 109, 117, 108, 97, 116, 111, 114, 32, 73, 110, 116, 101, 114, 102,
        97, 99, 101, 32, 80, 97, 99, 107, 101, 116, 32, 71, 84, 55, 32, 118,
    ]
}

/// The nonce for a datagram whose nonce word is `iv1`.
pub open spec fn nonce_for(iv1: u32) -> Seq<u8> {
    le_bytes32(iv1 ^ IV_MASK) + le_bytes32(iv1)
}

/// `data` XORed with the keystream selected by `iv1`.
pub open spec fn keystream_xor(data: Seq<u8>, iv1: u32) -> Seq<u8> {
    Seq::new(data.len(), |i: int| data[i] ^ salsa20_keystream(key_bytes(), nonce_for(iv1))[i])
}

/// What decrypting the datagram `d` gives.
pub open spec fn spec_decrypt(d: Seq<u8>) -> Result<Seq<u8>, PacketError> {
    if d.len() < MIN_DATAGRAM_LEN {
        Err(PacketError::Malformed)
    } else {
        let out = keystream_xor(d, spec_read_u32(d, IV_OFFSET as int).unwrap());
        if spec_read_u32(out, 0) == Some(PACKET_MAGIC) {
            Ok(out)
        } else {
            Err(PacketError::AuthFailed)
        }
    }
}

/// Relies on salsa20's `Salsa20::new` and `StreamCipher::apply_keystream`: the
/// buffer is XORed in place, byte for byte, with the keystream of key and nonce.
/// The keystream has 2^64 blocks, so no buffer exhausts it.
#[verifier::external_body]
fn salsa20_xor_in_place(key: &[u8; 32], nonce: &[u8; 8], data: &mut Vec<u8>)
    ensures
        final(data)@.len() == old(data)@.len(),
        forall|i: int|
            0 <= i < old(data)@.len() ==> final(data)@[i] == old(data)@[i] ^ salsa20_keystream(
                key@,
                nonce@,
            )[i],
{
    let mut cipher = salsa20::Salsa20::new(key.into(), nonce.into());
    cipher.apply_keystream(data.as_mut_slice());
}

fn cipher_key() -> (r: [u8; 32])
    ensures
        r@ == key_bytes(),
{
    let r: [u8; 32] = [
        83u8, 105, 109, 117, 108, 97, 116, 111, 114, 32, 73, 110, 116, 101, 114, 102,
        97, 99, 101, 32, 80, 97, 99, 107, 101, 116, 32, 71, 84, 55, 32, 118,
    ];
    assert(r@ =~= key_bytes());
    r
}

fn nonce_array(iv1: u32) -> (r: [u8; 8])
    ensures
        r@ == nonce_for(iv1),
{
    let a = u32_to_le(iv1 ^ IV_MASK);
    let b = u32_to_le(iv1);
    let r: [u8; 8] = [a[0], a[1], a[2], a[3], b[0], b[1], b[2], b[3]];
    assert(r@ =~= nonce_for(iv1));
    r
}

/// XORs `data` with the keystream selected by the nonce word `iv1`.
///
/// This is both encryption and decryption: applying it twice gives `data` back.
pub fn apply_keystream(data: &[u8], iv1: u32) -> (r: Vec<u8>)
    ensures
        r@ == keystream_xor(data@, iv1),
{
    let mut out: Vec<u8> = Vec::new();
    let mut i: usize = 0;
    while i < data.len()
        invariant
            i <= data@.len(),
            out@ == data@.subrange(0, i as int),
        decreases data@.len() - i,
    {
        out.push(data[i]);
        i = i + 1;
    }
    assert(out@ =~= data@);
    let key = cipher_key();
    let nonce = nonce_array(iv1);
    salsa20_xor_in_place(&key, &nonce, &mut out);
    assert(out@ =~= keystream_xor(data@, iv1));
    out
}

/// Decrypts one datagram and checks its magic word.
///
/// Fails with `Malformed` below 0x44 bytes and with `AuthFailed` when the
/// plaintext does not start with the magic word; the plaintext has the
/// datagram's length.
pub fn decrypt_packet(dat: &[u8]) -> (r: Result<Vec<u8>, PacketError>)
    ensures
        match (r, spec_decrypt(dat@)) {
            (Ok(out), Ok(s)) => out@ == s,
            (Err(e), Err(s)) => e == s,
            _ => false,
        },
{
    if dat.len() < MIN_DATAGRAM_LEN {
        return Err(PacketError::Malformed);
    }
    let iv1 = match read_u32(dat, IV_OFFSET) {
        Some(v) => v,
        None => return Err(PacketError::Malformed),
    };
    let out = apply_keystream(dat, iv1);
    if read_u32(out.as_slice(), 0) == Some(PACKET_MAGIC) {
        Ok(out)
    } else {
        Err(PacketError::AuthFailed)
    }
}

/// Applying the keystream twice under the same nonce word gives the data back.
pub proof fn lemma_keystream_involution(p: Seq<u8>, iv1: u32)
    ensures
        keystream_xor(keystream_xor(p, iv1), iv1) == p,
{
    let k = salsa20_keystream(key_bytes(), nonce_for(iv1));
    assert forall|i: int| 0 <= i < p.len() implies keystream_xor(keystream_xor(p, iv1), iv1)[i]
        == p[i] by {
        let a = p[i];
        let b = k[i];
        assert((a ^ b) ^ b == a) by (bit_vector);
    }
    assert(keystream_xor(keystream_xor(p, iv1), iv1) =~= p);
}

} // verus!
