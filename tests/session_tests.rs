use gt7_telemetry::frame::{parse_telemetry, TelemetryFrame};
use gt7_telemetry::session::{next_session_state, SessionState, SessionTracker};
use gt7_telemetry::state::State;
use gt7_telemetry::store::{PacketInfo, RawPacketSnapshot, TelemetryStore};

struct FrameSpec {
    in_race: bool,
    paused: bool,
    last_lap_ms: i32,
    lap: i16,
    packet_id: i32,
}

fn frame(spec: FrameSpec) -> TelemetryFrame {
    let mut p = vec![0u8; 0x128];
    p[0x70..0x74].copy_from_slice(&spec.packet_id.to_le_bytes());
    p[0x74..0x76].copy_from_slice(&spec.lap.to_le_bytes());
    p[0x7C..0x80].copy_from_slice(&spec.last_lap_ms.to_le_bytes());
    p[0x8E] = (spec.in_race as u8) | ((spec.paused as u8) << 1);
    p[0x4C..0x50].copy_from_slice(&30.0f32.to_le_bytes());
    p[0x91] = 128;
    parse_telemetry(&p).unwrap()
}

fn racing(last_lap_ms: i32, lap: i16, packet_id: i32) -> TelemetryFrame {
    frame(FrameSpec { in_race: true, paused: false, last_lap_ms, lap, packet_id })
}

fn paused(last_lap_ms: i32, lap: i16, packet_id: i32) -> TelemetryFrame {
    frame(FrameSpec { in_race: true, paused: true, last_lap_ms, lap, packet_id })
}

fn not_racing(packet_id: i32) -> TelemetryFrame {
    frame(FrameSpec { in_race: false, paused: false, last_lap_ms: 0, lap: 0, packet_id })
}

fn snapshot(at: u64) -> RawPacketSnapshot {
    RawPacketSnapshot { captured_at_ms: at, source_ip: None, encrypted: vec![1, 2], decrypted: vec![3] }
}

#[test]
fn session_enters_race() {
    let mut store = TelemetryStore::new();
    let before = store.session.session_index;
    store.apply_frame(&not_racing(1), None, 0, None);
    assert_eq!(store.session.session_state, SessionState::NotInRace);
    assert_eq!(store.samples.len(), 0);
    let events = store.apply_frame(&racing(0, 1, 2), None, 10, None);
    assert_eq!(store.session.session_index, before + 1);
    assert_eq!(store.session.session_state, SessionState::InRace);
    assert!(events.transition.is_some());
    assert!(events.should_start_record);
    // The history was emptied on entry; only the entering frame's sample is in it.
    let samples = store.samples.to_vec_ordered();
    assert_eq!(samples.len(), 1);
    assert_eq!(samples[0].t_ms, 10);
}

#[test]
fn entering_race_clears_previous_samples() {
    let mut store = TelemetryStore::new();
    for i in 0..5 {
        store.apply_frame(&racing(0, 1, i + 1), None, (i as u64) * 10, None);
    }
    assert_eq!(store.samples.len(), 5);
    store.apply_frame(&not_racing(100), None, 100, None);
    assert_eq!(store.samples.len(), 5);
    store.apply_frame(&racing(0, 1, 1), None, 200, None);
    let samples = store.samples.to_vec_ordered();
    assert_eq!(samples.len(), 1);
    assert_eq!(samples[0].t_ms, 200);
}

#[test]
fn pause_does_not_count_in_lap_time() {
    let mut t = SessionTracker::new();
    t.apply_frame(&racing(0, 1, 1), 0, None);
    assert_eq!(t.state.current_lap_time_ms, Some(0));
    t.apply_frame(&paused(0, 1, 2), 1000, None);
    assert_eq!(t.session_state, SessionState::Paused);
    t.apply_frame(&racing(0, 1, 3), 3000, None);
    assert_eq!(t.state.current_lap_time_ms, Some(1000));
}

#[test]
fn lap_time_grows_while_racing() {
    let mut t = SessionTracker::new();
    let mut last = -1;
    for i in 0..10u64 {
        t.apply_frame(&racing(5000, 2, i as i32), i * 100, None);
        let now = t.state.current_lap_time_ms.unwrap();
        assert!(now >= last);
        last = now;
    }
    assert_eq!(last, 900);
}

#[test]
fn new_last_lap_time_restarts_lap_clock() {
    let mut t = SessionTracker::new();
    t.apply_frame(&racing(0, 1, 1), 0, None);
    t.apply_frame(&racing(0, 1, 2), 4000, None);
    assert_eq!(t.state.current_lap_time_ms, Some(4000));
    t.apply_frame(&racing(61000, 2, 3), 5000, None);
    assert_eq!(t.state.current_lap_time_ms, Some(0));
    t.apply_frame(&racing(61000, 2, 4), 5250, None);
    assert_eq!(t.state.current_lap_time_ms, Some(250));
}

#[test]
fn leaving_race_clears_lap_clock() {
    let mut t = SessionTracker::new();
    t.apply_frame(&racing(0, 1, 1), 0, None);
    t.set_track_id(Some(7));
    let events = t.apply_frame(&not_racing(2), 500, None);
    assert!(events.should_stop_record);
    assert_eq!(t.state.current_lap_time_ms, None);
    assert_eq!(t.lap_start_mono_ms, None);
    assert_eq!(t.track_id, None);
}

#[test]
fn completed_laps_are_reported() {
    let mut t = SessionTracker::new();
    let e = t.apply_frame(&racing(0, 1, 1), 0, None);
    assert!(e.lap_changed);
    assert!(!e.lap_completed);
    let e = t.apply_frame(&racing(90000, 2, 2), 90000, None);
    assert!(e.lap_changed);
    assert!(e.lap_completed);
    let e = t.apply_frame(&racing(90000, 2, 3), 95000, None);
    assert!(!e.lap_changed);
    assert!(!e.lap_completed);
    let e = t.apply_frame(&racing(88000, 3, 4), 178000, None);
    assert!(e.lap_completed);
    let e = t.apply_frame(&racing(91000, 4, 5), 269000, None);
    assert!(e.lap_completed);
}

#[test]
fn lap_change_without_valid_lap_time_is_not_completed() {
    let mut t = SessionTracker::new();
    t.apply_frame(&racing(-1, 1, 1), 0, None);
    let e = t.apply_frame(&racing(-1, 2, 2), 1000, None);
    assert!(e.lap_changed);
    assert!(!e.lap_completed);
}

#[test]
fn no_sample_outside_race() {
    let mut store = TelemetryStore::new();
    for i in 0..4 {
        store.apply_frame(&not_racing(i), None, i as u64, None);
    }
    assert_eq!(store.samples.len(), 0);
    store.apply_frame(&racing(0, 1, 10), None, 10, None);
    store.apply_frame(&paused(0, 1, 11), None, 20, None);
    store.apply_frame(&paused(0, 1, 12), None, 30, None);
    assert_eq!(store.samples.len(), 1);
}

#[test]
fn stale_packet_ids_add_no_sample() {
    let mut store = TelemetryStore::new();
    store.apply_frame(&racing(0, 1, 10), None, 0, None);
    store.apply_frame(&racing(0, 1, 10), None, 10, None);
    store.apply_frame(&racing(0, 1, 9), None, 20, None);
    store.apply_frame(&racing(0, 1, 11), None, 30, None);
    let samples = store.samples.to_vec_ordered();
    assert_eq!(samples.len(), 2);
    assert_eq!(samples[0].t_ms, 0);
    assert_eq!(samples[1].t_ms, 30);
    assert_eq!(store.last_packet_id, Some(11));
}

#[test]
fn samples_stay_in_time_order_and_bounded() {
    let mut store = TelemetryStore::new();
    for i in 0..700u64 {
        store.apply_frame(&racing(0, 1, i as i32 + 1), None, i * 5, None);
    }
    let samples = store.samples.to_vec_ordered();
    assert_eq!(samples.len(), 600);
    assert_eq!(samples[0].t_ms, 500);
    for w in samples.windows(2) {
        assert!(w[1].t_ms >= w[0].t_ms);
    }
    assert_eq!(samples[0].speed_ms, Some(30.0f32.to_bits()));
    assert_eq!(samples[0].throttle_raw, Some(128));
}

#[test]
fn raw_packet_history_keeps_last_five() {
    let mut store = TelemetryStore::new();
    for i in 0..7u64 {
        let info = PacketInfo {
            packet_len: Some(100 + i as usize),
            payload_len: Some(100),
            source_ip: None,
            raw_snapshot: Some(snapshot(i)),
        };
        store.apply_frame(&not_racing(i as i32), None, i, Some(info));
        assert!(store.raw_packets.len() <= 5);
    }
    let kept: Vec<u64> = store.raw_packets.iter().map(|s| s.captured_at_ms).collect();
    assert_eq!(kept, vec![2, 3, 4, 5, 6]);
    assert_eq!(store.last_packet_len, Some(106));
}

#[test]
fn session_index_moves_only_on_race_entry() {
    let mut store = TelemetryStore::new();
    let mut now = 0u64;
    let mut step = |store: &mut TelemetryStore, f: TelemetryFrame| {
        now += 10;
        let before = store.session.session_index;
        let prev = store.session.session_state;
        store.apply_frame(&f, None, now, None);
        let entered = prev == SessionState::NotInRace && store.session.session_state == SessionState::InRace;
        assert!(store.session.session_index >= before);
        assert_eq!(store.session.session_index - before, entered as u64);
    };
    step(&mut store, not_racing(1));
    step(&mut store, racing(0, 1, 2));
    step(&mut store, paused(0, 1, 3));
    step(&mut store, racing(0, 1, 4));
    step(&mut store, not_racing(5));
    step(&mut store, paused(0, 1, 6));
    step(&mut store, racing(0, 1, 7));
    step(&mut store, not_racing(8));
    step(&mut store, racing(0, 1, 9));
    assert_eq!(store.session.session_index, 2);
}

#[test]
fn reset_for_demo_clears_store() {
    let mut store = TelemetryStore::new();
    store.apply_frame(&racing(0, 1, 1), Some(55), 0, Some(PacketInfo {
        packet_len: Some(1),
        payload_len: Some(1),
        source_ip: None,
        raw_snapshot: Some(snapshot(0)),
    }));
    assert_eq!(store.session.car_id, Some(55));
    let idx = store.session.session_index;
    store.reset_for_demo();
    assert_eq!(store.samples.len(), 0);
    assert_eq!(store.raw_packets.len(), 0);
    assert_eq!(store.session.session_index, idx);
    assert_eq!(store.session.car_id, None);
    assert!(store.session.state.is_empty());
    assert_eq!(store.last_telemetry_ms, None);
}

#[test]
fn next_state_keeps_current_without_both_flags() {
    let mut f = racing(0, 1, 1);
    f.is_paused = None;
    assert_eq!(next_session_state(SessionState::Paused, &f), SessionState::Paused);
    let f = paused(0, 1, 1);
    assert_eq!(next_session_state(SessionState::NotInRace, &f), SessionState::Paused);
}

#[test]
fn state_merge_keeps_absent_fields() {
    let mut s = State::new();
    assert!(s.is_empty());
    let f = racing(0, 1, 7);
    s.update_from(&f);
    assert!(!s.is_empty());
    assert_eq!(s.packet_id, Some(7));
    let mut g = racing(0, 2, 8);
    g.packet_id = None;
    g.rpm = None;
    s.update_from(&g);
    assert_eq!(s.packet_id, Some(7));
    assert_eq!(s.current_lap, Some(2));
}

#[test]
fn dynamics_follow_frame_and_car_id_is_kept() {
    let mut t = SessionTracker::new();
    t.apply_frame(&racing(0, 1, 1), 0, Some(9));
    assert_eq!(t.state.car_id, Some(9));
    assert_eq!(t.state.pos_x, Some(0));
    let mut f = racing(0, 1, 2);
    f.pos_x = None;
    t.apply_frame(&f, 10, None);
    assert_eq!(t.state.pos_x, None);
    assert_eq!(t.state.car_id, Some(9));
    t.set_car_id(Some(3));
    assert_eq!(t.state.car_id, Some(3));
}
