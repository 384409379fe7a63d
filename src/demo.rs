//! Decoding a whole capture into the sequence of states it leads to, as a
//! replay shows them.
use vstd::prelude::*;
use crate::bytes::spec_read_i32;
use crate::capture::{decode_capture, record_view, records_from, CaptureError, CaptureRecord};
use crate::codec::{decrypt_packet, spec_decrypt};
use crate::frame::{frame_of, parse_packet_meta, parse_telemetry};
use crate::session::{fresh_tracker, tracker_step, SessionTracker};
use crate::state::State;

verus! {

#[derive(Clone, Copy, Debug, PartialEq, Eq, Structural)]
pub enum DemoError {
    /// A record's bytes run past the end of the capture.
    Truncated,
    /// Fewer bytes than a header are left after the last record.
    TrailingBytes,
    /// No record decrypted and parsed to a frame.
    NoFrames,
}

/// The state after one record, stamped with the record's offset.
#[derive(Clone, Copy, Debug)]
pub struct DemoFrame {
    pub t_ms: u64,
    pub state: State,
}

/// The tracker with the given car and track ids imposed, where given.
pub open spec fn pin_ids(t: SessionTracker, track_id: Option<i32>, car_id: Option<i32>) -> SessionTracker {
    let t1 = if car_id is Some {
        SessionTracker { car_id: car_id, state: State { car_id: car_id, ..t.state }, ..t }
    } else {
        t
    };
    if track_id is Some {
        SessionTracker { track_id: track_id, state: State { track_id: track_id, ..t1.state }, ..t1 }
    } else {
        t1
    }
}

/// The (offset, state) pairs that the records lead to from tracker `t`.
/// Records that do not decrypt are passed over.
pub open spec fn demo_frames(
    recs: Seq<(u64, Seq<u8>)>,
    t: SessionTracker,
    track_id: Option<i32>,
    car_id: Option<i32>,
) -> Seq<(u64, State)>
    decreases recs.len(),
{
    if recs.len() == 0 {
        Seq::empty()
    } else {
        let t_ms = recs[0].0;
        let rest = recs.subrange(1, recs.len() as int);
        match spec_decrypt(recs[0].1) {
            Ok(p) => {
                let t1 = pin_ids(
                    tracker_step(t, frame_of(p), t_ms, spec_read_i32(p, 0x124)),
                    track_id,
                    car_id,
                );
                seq![(t_ms, t1.state)] + demo_frames(rest, t1, track_id, car_id)
            },
            Err(_) => demo_frames(rest, t, track_id, car_id),
        }
    }
}

pub open spec fn spec_decode_demo(d: Seq<u8>, track_id: Option<i32>, car_id: Option<i32>) -> Result<
    Seq<(u64, State)>,
    DemoError,
> {
    match records_from(d, 0) {
        Err(CaptureError::Truncated) => Err(DemoError::Truncated),
        Err(CaptureError::TrailingBytes) => Err(DemoError::TrailingBytes),
        Ok(recs) => {
            let frames = demo_frames(recs, pin_ids(fresh_tracker(), track_id, car_id), track_id, car_id);
            if frames.len() == 0 {
                Err(DemoError::NoFrames)
            } else {
                Ok(frames)
            }
        },
    }
}

fn pin(t: &mut SessionTracker, track_id: Option<i32>, car_id: Option<i32>)
    ensures
        *final(t) == pin_ids(*old(t), track_id, car_id),
{
    if car_id.is_some() {
        t.set_car_id(car_id);
    }
    if track_id.is_some() {
        t.set_track_id(track_id);
    }
}

/// Replays a capture through a fresh session tracker, optionally with a
/// fixed track and car, and returns the state after each usable record.
pub fn decode_demo_bin(data: &[u8], fixed_track_id: Option<i32>, fixed_car_id: Option<i32>) -> (r:
    Result<Vec<DemoFrame>, DemoError>)
    ensures
        match (r, spec_decode_demo(data@, fixed_track_id, fixed_car_id)) {
            (Ok(v), Ok(s)) => v@.map_values(|f: DemoFrame| (f.t_ms, f.state)) == s,
            (Err(e), Err(s)) => e == s,
            _ => false,
        },
{
    let records = match decode_capture(data) {
        Ok(v) => v,
        Err(CaptureError::Truncated) => return Err(DemoError::Truncated),
        Err(CaptureError::TrailingBytes) => return Err(DemoError::TrailingBytes),
    };
    let ghost recs = records@.map_values(|x: CaptureRecord| record_view(x));
    let mut session = SessionTracker::new();
    pin(&mut session, fixed_track_id, fixed_car_id);
    let ghost t0 = session;
    let mut frames: Vec<DemoFrame> = Vec::new();
    let mut i: usize = 0;
    assert(recs.subrange(0, recs.len() as int) =~= recs);
    assert(Seq::<(u64, State)>::empty() + demo_frames(recs, t0, fixed_track_id, fixed_car_id)
        =~= demo_frames(recs, t0, fixed_track_id, fixed_car_id));
    while i < records.len()
        invariant
            i <= records@.len(),
            recs == records@.map_values(|x: CaptureRecord| record_view(x)),
            frames@.map_values(|f: DemoFrame| (f.t_ms, f.state)) + demo_frames(
                recs.subrange(i as int, recs.len() as int),
                session,
                fixed_track_id,
                fixed_car_id,
            ) == demo_frames(recs, t0, fixed_track_id, fixed_car_id),
        decreases records@.len() - i,
    {
        let ghost tail = recs.subrange(i as int, recs.len() as int);
        assert(tail.subrange(1, tail.len() as int) =~= recs.subrange(i + 1, recs.len() as int));
        assert(tail[0] == record_view(records@[i as int]));
        let ghost done = frames@.map_values(|f: DemoFrame| (f.t_ms, f.state));
        let t_ms = records[i].offset_ms;
        match decrypt_packet(records[i].data.as_slice()) {
            Ok(payload) => {
                match parse_telemetry(payload.as_slice()) {
                    Some(frame) => {
                        let meta = parse_packet_meta(payload.as_slice());
                        let _ = session.apply_frame(&frame, t_ms, meta.car_id);
                        pin(&mut session, fixed_track_id, fixed_car_id);
                        let item = DemoFrame { t_ms, state: session.state };
                        frames.push(item);
                        assert(frames@.map_values(|f: DemoFrame| (f.t_ms, f.state)) =~= done.push(
                            (t_ms, session.state),
                        ));
                        assert(done + (seq![(t_ms, session.state)] + demo_frames(
                            tail.subrange(1, tail.len() as int),
                            session,
                            fixed_track_id,
                            fixed_car_id,
                        )) =~= done.push((t_ms, session.state)) + demo_frames(
                            tail.subrange(1, tail.len() as int),
                            session,
                            fixed_track_id,
                            fixed_car_id,
                        ));
                    },
                    None => {
                        // A decrypted datagram has at least 0x44 bytes, so
                        // parsing it always finds a field.
                        assert(false);
                    },
                }
            },
            Err(_) => {},
        }
        i = i + 1;
    }
    assert(recs.subrange(recs.len() as int, recs.len() as int) =~= Seq::<(u64, Seq<u8>)>::empty());
    assert(frames@.map_values(|f: DemoFrame| (f.t_ms, f.state)) + Seq::<(u64, State)>::empty()
        =~= frames@.map_values(|f: DemoFrame| (f.t_ms, f.state)));
    if frames.len() == 0 {
        return Err(DemoError::NoFrames);
    }
    Ok(frames)
}

} // verus!
