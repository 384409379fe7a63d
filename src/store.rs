//! The telemetry store: the session tracker, the history of samples and of
//! raw packets, and what is known of the last packet.
use vstd::prelude::*;
use std::collections::VecDeque;
use crate::frame::TelemetryFrame;
use crate::net::IpAddress;
use crate::ring::{ring_push, RingBuffer};
use crate::session::{
    entering_race, sat_add, spec_next_session_state, step_events, tracker_step, SessionEvents,
    SessionState, SessionTracker,
};

verus! {

/// Capacity of the sample history.
pub const SAMPLE_BUFFER_CAP: usize = 600;

/// Number of raw packets kept for inspection.
pub const RAW_PACKET_HISTORY: usize = 5;

/// A compact sample of the car's controls, stamped with monotonic time.
/// Speed and rpm are IEEE-754 bit patterns; throttle and brake are 0 to 255.
#[derive(Clone, Copy, Debug, PartialEq, Eq, Structural)]
pub struct Sample {
    pub t_ms: u64,
    pub speed_ms: Option<u32>,
    pub rpm: Option<u32>,
    pub throttle_raw: Option<u8>,
    pub brake_raw: Option<u8>,
}

pub open spec fn sample_of(f: TelemetryFrame, now: u64) -> Sample {
    Sample {
        t_ms: now,
        speed_ms: f.speed_ms,
        rpm: f.rpm,
        throttle_raw: f.throttle_raw,
        brake_raw: f.brake_raw,
    }
}

/// A datagram as received and as decrypted.
#[derive(Debug)]
pub struct RawPacketSnapshot {
    pub captured_at_ms: u64,
    pub source_ip: Option<IpAddress>,
    pub encrypted: Vec<u8>,
    pub decrypted: Vec<u8>,
}

/// What the receiver knows of a datagram besides its frame.
#[derive(Debug)]
pub struct PacketInfo {
    pub packet_len: Option<usize>,
    pub payload_len: Option<usize>,
    pub source_ip: Option<IpAddress>,
    pub raw_snapshot: Option<RawPacketSnapshot>,
}

pub struct TelemetryStore {
    pub session: SessionTracker,
    pub samples: RingBuffer<Sample>,
    pub last_packet_id: Option<i32>,
    pub last_source_timestamp_ms: Option<u64>,
    pub last_telemetry_ms: Option<u64>,
    pub last_packet_len: Option<usize>,
    pub last_payload_len: Option<usize>,
    pub last_source_ip: Option<IpAddress>,
    pub raw_packets: VecDeque<RawPacketSnapshot>,
}

/// Samples are in order of time.
pub open spec fn samples_ordered(s: Seq<Sample>) -> bool {
    forall|i: int, j: int| 0 <= i <= j < s.len() ==> s[i].t_ms <= s[j].t_ms
}

/// The raw-packet history after adding one: at most five, oldest out first.
pub open spec fn raw_history_push<T>(h: Seq<T>, item: T) -> Seq<T> {
    if h.len() >= RAW_PACKET_HISTORY { h.subrange(1, h.len() as int).push(item) } else { h.push(item) }
}

/// Whether a frame may add a sample after `last_packet_id`: packet ids must
/// grow; frames without one always may.
pub open spec fn packet_id_allows(last: Option<i32>, id: Option<i32>) -> bool {
    match (last, id) {
        (Some(l), Some(p)) => p > l,
        _ => true,
    }
}

/// In a well-formed store each sample is no earlier than the one before it.
pub proof fn lemma_samples_in_time_order(store: &TelemetryStore)
    requires
        store.wf(),
    ensures
        forall|i: int|
            0 <= i < store.samples@.len() - 1 ==> #[trigger] store.samples@[i].t_ms
                <= store.samples@[i + 1].t_ms,
{
}

impl TelemetryStore {
    /// The store's invariant: a bounded raw history, and samples in order of
    /// time, none later than the last telemetry.
    pub open spec fn wf(&self) -> bool {
        &&& self.samples.wf()
        &&& self.samples.capacity() == SAMPLE_BUFFER_CAP
        &&& self.raw_packets@.len() <= RAW_PACKET_HISTORY
        &&& samples_ordered(self.samples@)
        &&& forall|i: int|
            0 <= i < self.samples@.len() ==> self.last_telemetry_ms is Some
                && #[trigger] self.samples@[i].t_ms <= self.last_telemetry_ms.unwrap()
    }

    pub fn new() -> (r: TelemetryStore)
        ensures
            r.wf(),
            r.session == crate::session::fresh_tracker(),
            r.samples@ == Seq::<Sample>::empty(),
            r.raw_packets@ == Seq::<RawPacketSnapshot>::empty(),
            r.last_packet_id is None,
            r.last_telemetry_ms is None,
    {
        TelemetryStore {
            session: SessionTracker::new(),
            samples: RingBuffer::new(SAMPLE_BUFFER_CAP),
            last_packet_id: None,
            last_source_timestamp_ms: None,
            last_telemetry_ms: None,
            last_packet_len: None,
            last_payload_len: None,
            last_source_ip: None,
            raw_packets: VecDeque::new(),
        }
    }

    /// Clears the store for a fresh replay; the session index is kept.
    pub fn reset_for_demo(&mut self)
        requires
            old(self).wf(),
        ensures
            final(self).wf(),
            final(self).session == (SessionTracker {
                session_index: old(self).session.session_index,
                ..crate::session::fresh_tracker()
            }),
            final(self).samples@ == Seq::<Sample>::empty(),
            final(self).raw_packets@ == Seq::<RawPacketSnapshot>::empty(),
            final(self).last_packet_id is None,
            final(self).last_telemetry_ms is None,
            final(self).last_source_timestamp_ms is None,
            final(self).last_packet_len is None,
            final(self).last_payload_len is None,
            final(self).last_source_ip is None,
    {
        self.session.reset_for_demo();
        self.samples.clear();
        self.last_packet_id = None;
        self.raw_packets.clear();
        self.last_packet_len = None;
        self.last_payload_len = None;
        self.last_source_ip = None;
        self.last_telemetry_ms = None;
        self.last_source_timestamp_ms = None;
    }

    fn record_packet_info(&mut self, info: PacketInfo)
        requires
            old(self).wf(),
        ensures
            final(self).wf(),
            final(self).session == old(self).session,
            final(self).samples == old(self).samples,
            final(self).last_packet_id == old(self).last_packet_id,
            final(self).last_telemetry_ms == old(self).last_telemetry_ms,
            final(self).last_source_timestamp_ms == old(self).last_source_timestamp_ms,
            final(self).last_packet_len == (if info.packet_len is Some {
                info.packet_len
            } else {
                old(self).last_packet_len
            }),
            final(self).last_payload_len == (if info.payload_len is Some {
                info.payload_len
            } else {
                old(self).last_payload_len
            }),
            final(self).last_source_ip == (if info.source_ip is Some {
                info.source_ip
            } else {
                old(self).last_source_ip
            }),
            final(self).raw_packets@ == (match info.raw_snapshot {
                Some(snap) => raw_history_push(old(self).raw_packets@, snap),
                None => old(self).raw_packets@,
            }),
    {
        if info.packet_len.is_some() {
            self.last_packet_len = info.packet_len;
        }
        if info.payload_len.is_some() {
            self.last_payload_len = info.payload_len;
        }
        if info.source_ip.is_some() {
            self.last_source_ip = info.source_ip;
        }
        if let Some(snapshot) = info.raw_snapshot {
            if self.raw_packets.len() >= RAW_PACKET_HISTORY {
                let _ = self.raw_packets.pop_front();
            }
            self.raw_packets.push_back(snapshot);
        }
    }

    /// Applies one frame received at monotonic time `now_ms`.
    ///
    /// The session tracker takes the frame; entering a race clears the sample
    /// history and the packet-id gate; in race, a sample is added when the
    /// frame's packet id is newer than the last one (or either is unknown).
    pub fn apply_frame(
        &mut self,
        frame: &TelemetryFrame,
        packet_car_id: Option<i32>,
        now_ms: u64,
        packet_info: Option<PacketInfo>,
    ) -> (r: SessionEvents)
        requires
            old(self).wf(),
            old(self).last_telemetry_ms is Some ==> old(self).last_telemetry_ms.unwrap() <= now_ms,
        ensures
            final(self).wf(),
            final(self).session == tracker_step(old(self).session, *frame, now_ms, packet_car_id),
            r == step_events(old(self).session, *frame, now_ms),
            final(self).last_telemetry_ms == Some(now_ms),
            final(self).session.session_state != SessionState::InRace ==> final(self).samples@
                == old(self).samples@,
            final(self).raw_packets@.len() <= RAW_PACKET_HISTORY,
            final(self).session.session_index == (if entering_race(
                old(self).session.session_state,
                final(self).session.session_state,
            ) {
                sat_add(old(self).session.session_index, 1)
            } else {
                old(self).session.session_index
            }),
            final(self).session.session_state == spec_next_session_state(
                old(self).session.session_state,
                *frame,
            ),
            entering_race(old(self).session.session_state, final(self).session.session_state) ==> {
                &&& final(self).samples@.len() <= 1
                &&& forall|i: int|
                    0 <= i < final(self).samples@.len() ==> #[trigger] final(self).samples@[i].t_ms
                        == now_ms
            },
            ({
                let entering = entering_race(
                    old(self).session.session_state,
                    final(self).session.session_state,
                );
                let base = if entering { Seq::<Sample>::empty() } else { old(self).samples@ };
                let base_id = if entering { None } else { old(self).last_packet_id };
                let takes_sample = final(self).session.session_state == SessionState::InRace
                    && packet_id_allows(base_id, frame.packet_id);
                &&& final(self).samples@ == (if takes_sample {
                    ring_push(base, SAMPLE_BUFFER_CAP as nat, sample_of(*frame, now_ms))
                } else {
                    base
                })
                &&& final(self).last_packet_id == (if takes_sample && frame.packet_id is Some {
                    frame.packet_id
                } else {
                    base_id
                })
            }),
            final(self).raw_packets@ == (match packet_info {
                Some(info) => match info.raw_snapshot {
                    Some(snap) => raw_history_push(old(self).raw_packets@, snap),
                    None => old(self).raw_packets@,
                },
                None => old(self).raw_packets@,
            }),
            final(self).last_packet_len == (match packet_info {
                Some(info) => if info.packet_len is Some {
                    info.packet_len
                } else {
                    old(self).last_packet_len
                },
                None => old(self).last_packet_len,
            }),
            final(self).last_payload_len == (match packet_info {
                Some(info) => if info.payload_len is Some {
                    info.payload_len
                } else {
                    old(self).last_payload_len
                },
                None => old(self).last_payload_len,
            }),
            final(self).last_source_ip == (match packet_info {
                Some(info) => if info.source_ip is Some {
                    info.source_ip
                } else {
                    old(self).last_source_ip
                },
                None => old(self).last_source_ip,
            }),
            final(self).last_source_timestamp_ms == (if frame.source_timestamp_ms is Some {
                frame.source_timestamp_ms
            } else {
                old(self).last_source_timestamp_ms
            }),
    {
        self.last_telemetry_ms = Some(now_ms);
        assert(forall|i: int|
            0 <= i < self.samples@.len() ==> #[trigger] self.samples@[i].t_ms <= now_ms);
        if let Some(info) = packet_info {
            self.record_packet_info(info);
        }
        let previous_state = self.session.session_state;
        let events = self.session.apply_frame(frame, now_ms, packet_car_id);
        if previous_state == SessionState::NotInRace && self.session.session_state
            == SessionState::InRace {
            self.samples.clear();
            self.last_packet_id = None;
        }
        if self.session.session_state == SessionState::InRace {
            let allow_sample = match frame.packet_id {
                Some(packet_id) => match self.last_packet_id {
                    Some(last) => {
                        if packet_id <= last {
                            false
                        } else {
                            self.last_packet_id = Some(packet_id);
                            true
                        }
                    },
                    None => {
                        self.last_packet_id = Some(packet_id);
                        true
                    },
                },
                None => true,
            };
            if allow_sample {
                let sample = Sample {
                    t_ms: now_ms,
                    speed_ms: frame.speed_ms,
                    rpm: frame.rpm,
                    throttle_raw: frame.throttle_raw,
                    brake_raw: frame.brake_raw,
                };
                let ghost before = self.samples@;
                self.samples.push(sample);
                assert(samples_ordered(self.samples@)) by {
                    let after = self.samples@;
                    assert forall|i: int, j: int| 0 <= i <= j < after.len() implies after[i].t_ms
                        <= after[j].t_ms by {
                        if before.len() < SAMPLE_BUFFER_CAP {
                            if j < before.len() {
                                assert(after[i] == before[i] && after[j] == before[j]);
                            }
                        } else {
                            if j < before.len() - 1 {
                                assert(after[i] == before[i + 1] && after[j] == before[j + 1]);
                            } else if i < before.len() - 1 {
                                assert(after[i] == before[i + 1]);
                            }
                        }
                    }
                }
                assert(forall|i: int|
                    0 <= i < self.samples@.len() ==> #[trigger] self.samples@[i].t_ms <= now_ms)
                    by {
                    let after = self.samples@;
                    assert forall|i: int| 0 <= i < after.len() implies #[trigger] after[i].t_ms
                        <= now_ms by {
                        if before.len() < SAMPLE_BUFFER_CAP {
                            if i < before.len() {
                                assert(after[i] == before[i]);
                            }
                        } else {
                            if i < before.len() - 1 {
                                assert(after[i] == before[i + 1]);
                            }
                        }
                    }
                }
            }
        }
        if frame.source_timestamp_ms.is_some() {
            self.last_source_timestamp_ms = frame.source_timestamp_ms;
        }
        events
    }
}

} // verus!
