//! From datagram to frame, and what the receiver does with a datagram.
use vstd::prelude::*;
use crate::bytes::spec_read_u32;
use crate::codec::{
    decrypt_packet, keystream_xor, spec_decrypt, IV_OFFSET, MIN_DATAGRAM_LEN, PACKET_MAGIC,
};
use crate::detect::accepts_source;
use crate::frame::{frame_of, has_any_field, lemma_has_any_field_iff_len, parse_telemetry, TelemetryFrame};
use crate::net::{IpAddress, UdpConfig};

verus! {

/// The plaintext of a datagram whatever its magic word says.
pub open spec fn raw_plaintext(d: Seq<u8>) -> Seq<u8> {
    keystream_xor(d, spec_read_u32(d, IV_OFFSET as int).unwrap())
}

/// Decrypting then parsing a datagram succeeds exactly when it is long enough
/// to hold a nonce, its plaintext starts with the magic word, and some field
/// of the frame is in range; the last always holds once the first does.
pub proof fn lemma_decode_succeeds_iff(d: Seq<u8>)
    ensures
        (spec_decrypt(d) is Ok && has_any_field(frame_of(spec_decrypt(d).unwrap()))) <==> (d.len()
            >= MIN_DATAGRAM_LEN && spec_read_u32(raw_plaintext(d), 0) == Some(PACKET_MAGIC)
            && has_any_field(frame_of(raw_plaintext(d)))),
        d.len() >= MIN_DATAGRAM_LEN ==> has_any_field(frame_of(raw_plaintext(d))),
{
    lemma_has_any_field_iff_len(raw_plaintext(d));
    if spec_decrypt(d) is Ok {
        lemma_has_any_field_iff_len(spec_decrypt(d).unwrap());
    }
}

/// Decrypts and parses one datagram; `None` when either step fails.
pub fn decode_datagram(dat: &[u8]) -> (r: Option<(Vec<u8>, TelemetryFrame)>)
    ensures
        r is Some <==> (dat@.len() >= MIN_DATAGRAM_LEN && spec_read_u32(raw_plaintext(dat@), 0)
            == Some(PACKET_MAGIC)),
        r is Some ==> r.unwrap().0@ == raw_plaintext(dat@) && r.unwrap().1 == frame_of(
            raw_plaintext(dat@),
        ),
{
    proof {
        lemma_decode_succeeds_iff(dat@);
    }
    match decrypt_packet(dat) {
        Ok(payload) => match parse_telemetry(payload.as_slice()) {
            Some(frame) => Some((payload, frame)),
            None => None,
        },
        Err(_) => None,
    }
}

/// Where a received datagram goes.
#[derive(Clone, Copy, Debug, PartialEq, Eq, Structural)]
pub enum DatagramRoute {
    /// Ignore it.
    Drop,
    /// Settle the listening auto-detect with its source, then apply it.
    DetectThenApply,
    /// Apply it to the store.
    Apply,
}

/// Routes a datagram that decoded: dropped during a replay; settles an
/// auto-detect that listens; otherwise taken only from the named console,
/// if one is named.
pub fn route_datagram(demo_active: bool, detecting: bool, config: &UdpConfig, source: IpAddress) -> (r:
    DatagramRoute)
    ensures
        r == (if demo_active {
            DatagramRoute::Drop
        } else if detecting {
            DatagramRoute::DetectThenApply
        } else if config.ps5_ip is Some && config.ps5_ip != Some(source) {
            DatagramRoute::Drop
        } else {
            DatagramRoute::Apply
        }),
{
    if demo_active {
        DatagramRoute::Drop
    } else if detecting {
        DatagramRoute::DetectThenApply
    } else if !accepts_source(config, source) {
        DatagramRoute::Drop
    } else {
        DatagramRoute::Apply
    }
}

/// Address the receiver must rebind to so as to listen on `wanted`: none
/// when it already does.
pub fn rebind_target(active_bind: IpAddress, wanted: IpAddress) -> (r: Option<IpAddress>)
    ensures
        r == (if active_bind != wanted { Some(wanted) } else { None }),
{
    if active_bind != wanted {
        Some(wanted)
    } else {
        None
    }
}

/// Address to rebind to after a configuration change: the new listening
/// address when it changed, unless an auto-detect is listening everywhere.
pub fn rebind_on_config_change(detecting: bool, config: &UdpConfig, next: &UdpConfig) -> (r: Option<
    IpAddress,
>)
    ensures
        r == (if !detecting && next.bind_addr != config.bind_addr {
            Some(next.bind_addr)
        } else {
            None
        }),
{
    if !detecting && next.bind_addr != config.bind_addr {
        Some(next.bind_addr)
    } else {
        None
    }
}

} // verus!
