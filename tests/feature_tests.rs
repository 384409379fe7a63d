use gt7_telemetry::capture::{decode_capture, encode_record, playback_delay, scan_record, CaptureError, RecordScan};
use gt7_telemetry::codec::{apply_keystream, PACKET_MAGIC};
use gt7_telemetry::demo::{decode_demo_bin, DemoError};
use gt7_telemetry::detect::{
    accepts_source, config_after_found, detect_deadline, detect_tick, next_sequence, rate_limit_due,
    DetectState, DetectStatus, DetectStore, DetectTick, DETECT_TIMEOUT_MS,
};
use gt7_telemetry::hex::hex_encode;
use gt7_telemetry::ingest::{rebind_on_config_change, rebind_target, route_datagram, DatagramRoute};
use gt7_telemetry::net::{
    fallback_local_ip, heartbeat_mode, is_private_ipv4, preferred_private_ipv4, resolve_broadcast_bind_ip,
    should_warn_stale, HeartbeatMode, IpAddress, UdpConfig, IPV4_LOOPBACK,
};
use gt7_telemetry::record::{record_status_snapshot, RecordMode, RecordState};
use gt7_telemetry::ring::RingBuffer;
use gt7_telemetry::store::Sample;
use gt7_telemetry::window::decimate_samples;

fn ip(a: u8, b: u8, c: u8, d: u8) -> u32 {
    u32::from_be_bytes([a, b, c, d])
}

fn sample(t_ms: u64) -> Sample {
    Sample { t_ms, speed_ms: None, rpm: None, throttle_raw: None, brake_raw: None }
}

#[test]
fn samples_window_decimation() {
    let samples: Vec<Sample> = (0..100u64).map(|i| sample(i * 10)).collect();
    let w = decimate_samples(&samples, 1000);
    assert_eq!(w.start_ms, 0);
    assert_eq!(w.end_ms, 1000);
    assert_eq!(w.stride_ms, 50);
    assert!(w.samples.len() <= 21);
    assert_eq!(w.samples.len(), 20);
    for pair in w.samples.windows(2) {
        assert!(pair[1].t_ms - pair[0].t_ms >= 50);
    }
    assert!(w.samples[0].t_ms >= 0);
    assert!(w.samples.last().unwrap().t_ms <= 1000);
}

#[test]
fn window_drops_samples_outside_last_five_seconds() {
    let samples: Vec<Sample> = vec![sample(100), sample(5000), sample(5040), sample(5100), sample(9000), sample(12000)];
    let w = decimate_samples(&samples, 10000);
    assert_eq!(w.start_ms, 5000);
    let ts: Vec<u64> = w.samples.iter().map(|s| s.t_ms).collect();
    assert_eq!(ts, vec![5000, 5100, 9000]);
}

#[test]
fn ring_buffer_evicts_oldest() {
    let mut r: RingBuffer<u32> = RingBuffer::new(3);
    assert_eq!(r.len(), 0);
    assert_eq!(r.to_vec_ordered(), Vec::<u32>::new());
    for i in 1..=5 {
        r.push(i);
    }
    assert_eq!(r.len(), 3);
    assert_eq!(r.to_vec_ordered(), vec![3, 4, 5]);
    r.push(6);
    assert_eq!(r.to_vec_ordered(), vec![4, 5, 6]);
    r.clear();
    assert_eq!(r.len(), 0);
    r.push(9);
    assert_eq!(r.to_vec_ordered(), vec![9]);
}

#[test]
fn capture_record_round_trip() {
    let mut bytes = encode_record(1500, &[9, 8, 7]);
    assert_eq!(bytes.len(), 15);
    assert_eq!(&bytes[0..8], &1500u64.to_le_bytes());
    assert_eq!(&bytes[8..12], &3u32.to_le_bytes());
    bytes.extend(encode_record(1600, &[]));
    bytes.extend(encode_record(1700, &[1]));
    let recs = decode_capture(&bytes).unwrap();
    assert_eq!(recs.len(), 2);
    assert_eq!(recs[0].offset_ms, 1500);
    assert_eq!(recs[0].data, vec![9, 8, 7]);
    assert_eq!(recs[1].offset_ms, 1700);
    assert_eq!(recs[1].data, vec![1]);
    assert_eq!(decode_capture(&[]).unwrap().len(), 0);
}

#[test]
fn capture_errors() {
    let mut bytes = encode_record(1, &[1, 2, 3, 4]);
    bytes.truncate(14);
    assert_eq!(decode_capture(&bytes).unwrap_err(), CaptureError::Truncated);
    let mut bytes = encode_record(1, &[1]);
    bytes.extend([0u8; 5]);
    assert_eq!(decode_capture(&bytes).unwrap_err(), CaptureError::TrailingBytes);
    assert_eq!(scan_record(&bytes, 13), RecordScan::TrailingBytes);
    assert_eq!(scan_record(&bytes, bytes.len()), RecordScan::End);
    assert_eq!(scan_record(&bytes, 0), RecordScan::Record { offset_ms: 1, start: 12, len: 1, next: 13 });
}

#[test]
fn playback_delay_saturates() {
    assert_eq!(playback_delay(100, 250), 150);
    assert_eq!(playback_delay(300, 250), 0);
}

fn datagram(in_race: bool, lap: i16, iv1: u32) -> Vec<u8> {
    let mut p = vec![0u8; 0x128];
    p[0..4].copy_from_slice(&PACKET_MAGIC.to_le_bytes());
    p[0x74..0x76].copy_from_slice(&lap.to_le_bytes());
    p[0x8E] = in_race as u8;
    p[0x124..0x128].copy_from_slice(&77i32.to_le_bytes());
    let mut c = apply_keystream(&p, iv1);
    c[0x40..0x44].copy_from_slice(&iv1.to_le_bytes());
    c
}

#[test]
fn demo_capture_decodes_to_states() {
    let mut bytes = encode_record(0, &datagram(false, 0, 1));
    bytes.extend(encode_record(50, &[0u8; 80]));
    bytes.extend(encode_record(100, &datagram(true, 1, 2)));
    let frames = decode_demo_bin(&bytes, Some(12), None).unwrap();
    assert_eq!(frames.len(), 2);
    assert_eq!(frames[0].t_ms, 0);
    assert_eq!(frames[1].t_ms, 100);
    assert_eq!(frames[1].state.current_lap, Some(1));
    assert_eq!(frames[1].state.track_id, Some(12));
    assert_eq!(frames[1].state.car_id, Some(77));
    assert_eq!(frames[1].state.current_lap_time_ms, Some(0));
    let frames = decode_demo_bin(&bytes, None, Some(5)).unwrap();
    assert_eq!(frames[1].state.car_id, Some(5));
}

#[test]
fn demo_capture_errors() {
    assert_eq!(decode_demo_bin(&[], None, None).unwrap_err(), DemoError::NoFrames);
    let bytes = encode_record(0, &[1u8; 70]);
    assert_eq!(decode_demo_bin(&bytes, None, None).unwrap_err(), DemoError::NoFrames);
    let mut bytes = encode_record(0, &datagram(true, 1, 3));
    bytes.push(0);
    assert_eq!(decode_demo_bin(&bytes, None, None).unwrap_err(), DemoError::TrailingBytes);
    let mut bytes = encode_record(0, &datagram(true, 1, 3));
    bytes.truncate(40);
    assert_eq!(decode_demo_bin(&bytes, None, None).unwrap_err(), DemoError::Truncated);
}

#[test]
fn detect_start_is_idempotent_while_active() {
    let mut store = DetectStore::new();
    let mut seq = 0u64;
    let first = store.start(&mut seq);
    assert_eq!(first.id, 1);
    assert_eq!(first.status, DetectStatus::Pending);
    assert_eq!(first.timeout_ms, DETECT_TIMEOUT_MS);
    assert!(store.is_pending());
    let again = store.start(&mut seq);
    assert_eq!(again, first);
    assert_eq!(seq, 1);
    assert_eq!(store.cancel(), Some(1));
    assert_eq!(store.status_of(1).status, DetectStatus::Cancelled);
    assert_eq!(store.cancel(), None);
    let second = store.start(&mut seq);
    assert_eq!(second.id, 2);
}

#[test]
fn detect_found_and_unknown_status() {
    let mut store = DetectStore::new();
    let mut seq = 10u64;
    let s = store.start(&mut seq);
    let src = IpAddress::V4(ip(192, 168, 1, 20));
    assert!(store.datagram_seen(s.id, src));
    assert_eq!(store.active_id, None);
    let st = store.status_of(s.id);
    assert_eq!(st.status, DetectStatus::Found);
    assert_eq!(st.ps5_ip, Some(src));
    assert!(!store.datagram_seen(s.id, src));
    let unknown = store.status_of(999);
    assert_eq!(unknown.status, DetectStatus::Error);
    assert_eq!(unknown.ps5_ip, None);
    assert_eq!(DetectStatus::Timeout.as_str(), "timeout");
}

#[test]
fn detect_timeout_and_manual_config() {
    let mut store = DetectStore::new();
    let mut seq = 0u64;
    let s = store.start(&mut seq);
    store.finish(s.id, DetectStatus::Timeout);
    assert_eq!(store.status_of(s.id).status, DetectStatus::Timeout);
    assert_eq!(store.last_event.unwrap().status, DetectStatus::Timeout);
    let s = store.start(&mut seq);
    let cfg = UdpConfig { bind_addr: IpAddress::V4(0), ps5_ip: Some(IpAddress::V4(ip(10, 0, 0, 2))) };
    store.apply_config(&cfg);
    assert_eq!(store.active_id, None);
    assert_eq!(store.status_of(s.id).status, DetectStatus::Cancelled);
}

#[test]
fn detect_tick_and_deadline() {
    let st = DetectState { id: 4, deadline_ms: detect_deadline(1000, DETECT_TIMEOUT_MS) };
    assert_eq!(st.deadline_ms, 11000);
    assert_eq!(detect_tick(Some(4), &st, 5000), DetectTick::Wait);
    assert_eq!(detect_tick(Some(4), &st, 11000), DetectTick::TimedOut);
    assert_eq!(detect_tick(None, &st, 5000), DetectTick::Dropped);
    assert_eq!(detect_deadline(u64::MAX - 1, 10), u64::MAX);
}

#[test]
fn found_console_widens_loopback_bind() {
    let cfg = UdpConfig::default();
    assert_eq!(cfg.bind_addr, IpAddress::V4(IPV4_LOOPBACK));
    let src = IpAddress::V4(ip(192, 168, 0, 9));
    let next = config_after_found(&cfg, src);
    assert_eq!(next.bind_addr, IpAddress::V4(0));
    assert_eq!(next.ps5_ip, Some(src));
    let cfg = UdpConfig { bind_addr: IpAddress::V4(ip(192, 168, 0, 2)), ps5_ip: None };
    assert_eq!(config_after_found(&cfg, src).bind_addr, cfg.bind_addr);
}

#[test]
fn datagram_routing() {
    let console = IpAddress::V4(ip(192, 168, 0, 9));
    let other = IpAddress::V4(ip(192, 168, 0, 10));
    let named = UdpConfig { bind_addr: IpAddress::V4(0), ps5_ip: Some(console) };
    assert_eq!(route_datagram(true, false, &named, console), DatagramRoute::Drop);
    assert_eq!(route_datagram(false, true, &named, other), DatagramRoute::DetectThenApply);
    assert_eq!(route_datagram(false, false, &named, other), DatagramRoute::Drop);
    assert_eq!(route_datagram(false, false, &named, console), DatagramRoute::Apply);
    assert!(accepts_source(&UdpConfig::default(), other));
}

#[test]
fn heartbeat_mode_table() {
    let console = IpAddress::V4(ip(192, 168, 0, 9));
    assert_eq!(heartbeat_mode(Some(console), true), HeartbeatMode::Unicast(console));
    assert_eq!(heartbeat_mode(Some(console), false), HeartbeatMode::Unicast(console));
    assert_eq!(heartbeat_mode(None, true), HeartbeatMode::Broadcast);
    assert_eq!(heartbeat_mode(None, false), HeartbeatMode::Stop);
}

#[test]
fn stale_warning_is_rate_limited() {
    let u = HeartbeatMode::Unicast(IpAddress::V4(1));
    assert!(should_warn_stale(u, 6000, Some(1000), None));
    assert!(!should_warn_stale(u, 5999, Some(1000), None));
    assert!(!should_warn_stale(u, 8000, Some(1000), Some(6000)));
    assert!(should_warn_stale(u, 11000, Some(1000), Some(6000)));
    assert!(!should_warn_stale(HeartbeatMode::Broadcast, 9000, None, None));
    assert!(rate_limit_due(2000, 1000, 1000));
    assert!(!rate_limit_due(1999, 1000, 1000));
}

#[test]
fn private_ranges() {
    assert!(is_private_ipv4(ip(10, 1, 2, 3)));
    assert!(is_private_ipv4(ip(172, 16, 0, 1)));
    assert!(is_private_ipv4(ip(172, 31, 255, 1)));
    assert!(!is_private_ipv4(ip(172, 32, 0, 1)));
    assert!(is_private_ipv4(ip(192, 168, 5, 5)));
    assert!(!is_private_ipv4(ip(192, 169, 5, 5)));
    assert!(!is_private_ipv4(ip(127, 0, 0, 1)));
    let addrs = vec![ip(127, 0, 0, 1), ip(8, 8, 8, 8), ip(192, 168, 1, 4), ip(10, 0, 0, 1)];
    assert_eq!(preferred_private_ipv4(&addrs), Some(ip(192, 168, 1, 4)));
    assert_eq!(preferred_private_ipv4(&vec![ip(8, 8, 8, 8)]), None);
}

#[test]
fn local_ip_fallback_chain() {
    let real = UdpConfig { bind_addr: IpAddress::V4(ip(192, 168, 1, 2)), ps5_ip: None };
    assert_eq!(fallback_local_ip(&real, Some(ip(10, 0, 0, 1)), None), Some(real.bind_addr));
    let lo = UdpConfig::default();
    assert_eq!(fallback_local_ip(&lo, Some(ip(10, 0, 0, 1)), None), Some(IpAddress::V4(ip(10, 0, 0, 1))));
    let hint = IpAddress::V4(ip(100, 64, 0, 1));
    assert_eq!(fallback_local_ip(&lo, None, Some(hint)), Some(hint));
    assert_eq!(resolve_broadcast_bind_ip(&lo, false, Some(1), Some(hint)), None);
    assert_eq!(resolve_broadcast_bind_ip(&lo, true, None, Some(hint)), Some(hint));
}

#[test]
fn record_mode_machine() {
    let mut r = RecordState::new();
    assert_eq!(record_status_snapshot(&r).mode, "idle");
    assert!(r.record_bytes_for(10, &[1]).is_none());
    r.arm("demo.bin".to_string());
    let st = record_status_snapshot(&r);
    assert_eq!(st.mode, "armed");
    assert!(st.armed);
    assert_eq!(st.path.as_deref(), Some("demo.bin"));
    r.arm("other.bin".to_string());
    assert_eq!(r.path.as_deref(), Some("demo.bin"));
    r.begin(1000);
    assert_eq!(r.mode, RecordMode::Recording);
    assert!(record_status_snapshot(&r).active);
    let bytes = r.record_bytes_for(1250, &[5, 6]).unwrap();
    assert_eq!(&bytes[0..8], &250u64.to_le_bytes());
    assert_eq!(&bytes[8..12], &2u32.to_le_bytes());
    assert_eq!(&bytes[12..], &[5, 6]);
    r.frame_written();
    assert_eq!(record_status_snapshot(&r).frames, 1);
    assert!(r.stop());
    assert_eq!(r.mode, RecordMode::Idle);
    assert!(!r.stop());
    r.arm("x".to_string());
    r.fail();
    assert_eq!(r.mode, RecordMode::Idle);
    assert_eq!(RecordMode::Recording.as_str(), "recording");
}

#[test]
fn hex_encoding() {
    assert_eq!(hex_encode(&[0x00, 0xab, 0x7f, 0x10]), "00ab7f10");
    assert_eq!(hex_encode(&[]), "");
}

#[test]
fn sequence_counter() {
    let mut s = 0u64;
    assert_eq!(next_sequence(&mut s), 1);
    assert_eq!(next_sequence(&mut s), 2);
    assert_eq!(s, 2);
}

#[test]
fn rebind_decisions() {
    let lo = IpAddress::V4(IPV4_LOOPBACK);
    let any = IpAddress::V4(0);
    assert_eq!(rebind_target(lo, any), Some(any));
    assert_eq!(rebind_target(any, any), None);
    let a = UdpConfig::default();
    let b = UdpConfig { bind_addr: any, ps5_ip: None };
    assert_eq!(rebind_on_config_change(false, &a, &b), Some(any));
    assert_eq!(rebind_on_config_change(true, &a, &b), None);
    assert_eq!(rebind_on_config_change(false, &a, &a), None);
}

#[test]
fn full_ring_keeps_capacity() {
    let mut r: RingBuffer<u8> = RingBuffer::new(2);
    for i in 0..10u8 {
        r.push(i);
        assert!(r.len() <= 2);
    }
    assert_eq!(r.len(), 2);
}

#[test]
fn active_detect_answers_with_active_id() {
    let mut store = DetectStore::new();
    let mut seq = 41u64;
    let s = store.start(&mut seq);
    assert_eq!(store.active_id, Some(s.id));
    assert_eq!(store.start(&mut seq).id, store.active_id.unwrap());
}
