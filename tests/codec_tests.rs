use gt7_telemetry::codec::{apply_keystream, decrypt_packet, PacketError, PACKET_MAGIC};
use gt7_telemetry::frame::{parse_packet_meta, parse_telemetry};
use gt7_telemetry::ingest::decode_datagram;

const DATAGRAM_LEN: usize = 0x128;

fn plaintext() -> Vec<u8> {
    let mut p = vec![0u8; DATAGRAM_LEN];
    p[0..4].copy_from_slice(&PACKET_MAGIC.to_le_bytes());
    p[0x04..0x08].copy_from_slice(&1.5f32.to_le_bytes());
    p[0x0C..0x10].copy_from_slice(&(-2.25f32).to_le_bytes());
    p[0x4C..0x50].copy_from_slice(&50.0f32.to_le_bytes());
    p[0x70..0x74].copy_from_slice(&42i32.to_le_bytes());
    p[0x74..0x76].copy_from_slice(&3i16.to_le_bytes());
    p[0x7C..0x80].copy_from_slice(&(-1i32).to_le_bytes());
    p[0x8E] = 0b01;
    p[0x90] = 0x53;
    p[0x91] = 255;
    p[0x124..0x128].copy_from_slice(&1234i32.to_le_bytes());
    p
}

fn encrypt(plain: &[u8], iv1: u32) -> Vec<u8> {
    let mut c = apply_keystream(plain, iv1);
    c[0x40..0x44].copy_from_slice(&iv1.to_le_bytes());
    c
}

#[test]
fn decrypt_known_good_fixture() {
    let datagram = encrypt(&plaintext(), 0x0000_0001);
    assert_eq!(datagram.len(), 0x128);
    let out = decrypt_packet(&datagram).expect("fixture decrypts");
    assert_eq!(out.len(), 0x128);
    assert_eq!(&out[0..4], &[0x30, 0x53, 0x37, 0x47]);

    let mut flipped = datagram.clone();
    flipped[0x40..0x44].copy_from_slice(&0x0000_0002u32.to_le_bytes());
    assert_eq!(decrypt_packet(&flipped), Err(PacketError::AuthFailed));
}

#[test]
fn short_datagram_is_malformed() {
    assert_eq!(decrypt_packet(&[0u8; 67]), Err(PacketError::Malformed));
    assert_eq!(decrypt_packet(&[]), Err(PacketError::Malformed));
}

#[test]
fn shortest_datagram_reaches_magic_check() {
    let plain = {
        let mut p = vec![0u8; 0x44];
        p[0..4].copy_from_slice(&PACKET_MAGIC.to_le_bytes());
        p
    };
    let datagram = encrypt(&plain, 7);
    let out = decrypt_packet(&datagram).expect("68 bytes decrypt");
    assert_eq!(out.len(), 0x44);
}

#[test]
fn keystream_changes_data_and_is_an_involution() {
    let data: Vec<u8> = (0..200u32).map(|i| (i * 7 % 256) as u8).collect();
    let once = apply_keystream(&data, 0xDEAD_0001);
    assert_eq!(once.len(), data.len());
    assert_ne!(once, data);
    let twice = apply_keystream(&once, 0xDEAD_0001);
    assert_eq!(twice, data);
    let other = apply_keystream(&data, 0xDEAD_0002);
    assert_ne!(other, once);
}

#[test]
fn decode_datagram_succeeds_only_with_magic() {
    let datagram = encrypt(&plaintext(), 99);
    let (payload, frame) = decode_datagram(&datagram).expect("decodes");
    assert_eq!(payload.len(), DATAGRAM_LEN);
    assert_eq!(&payload[0..0x40], &plaintext()[0..0x40]);
    assert_eq!(&payload[0x44..], &plaintext()[0x44..]);
    assert_eq!(frame.packet_id, Some(42));
    assert_eq!(frame.car_id, Some(1234));

    let mut bad = plaintext();
    bad[0] = 0;
    assert!(decode_datagram(&encrypt(&bad, 99)).is_none());
    assert!(decode_datagram(&datagram[..0x43]).is_none());
}

#[test]
fn parse_reads_fields_at_fixed_offsets() {
    let p = plaintext();
    let f = parse_telemetry(&p).expect("full payload parses");
    assert_eq!(f.pos_x, Some(1.5f32.to_bits()));
    assert_eq!(f.pos_z, Some((-2.25f32).to_bits()));
    assert_eq!(f.speed_ms, Some(50.0f32.to_bits()));
    assert_eq!(f.packet_id, Some(42));
    assert_eq!(f.current_lap, Some(3));
    assert_eq!(f.last_lap_ms, Some(-1));
    assert_eq!(f.in_race, Some(true));
    assert_eq!(f.is_paused, Some(false));
    assert_eq!(f.flags_8e, Some(1));
    assert_eq!(f.gear, Some(3));
    assert_eq!(f.gear_raw, Some(3));
    assert_eq!(f.suggested_gear, Some(5));
    assert_eq!(f.throttle_raw, Some(255));
    assert_eq!(f.car_id, Some(1234));
    assert_eq!(f.yaw_rate, f.angular_vel_y);
    assert_eq!(f.source_timestamp_ms, None);
}

#[test]
fn parse_gear_zero_is_reverse_and_flags_paused() {
    let mut p = plaintext();
    p[0x90] = 0x20;
    p[0x8E] = 0b11;
    let f = parse_telemetry(&p).unwrap();
    assert_eq!(f.gear, Some(-1));
    assert_eq!(f.gear_raw, Some(0));
    assert_eq!(f.suggested_gear, Some(2));
    assert_eq!(f.in_race, Some(true));
    assert_eq!(f.is_paused, Some(true));
}

#[test]
fn parse_short_payload_yields_absence() {
    assert!(parse_telemetry(&[0u8; 7]).is_none());
    assert!(parse_telemetry(&[]).is_none());
    let f = parse_telemetry(&[1u8; 8]).expect("one field in range");
    assert_eq!(f.pos_x, Some(0x0101_0101));
    assert_eq!(f.pos_y, None);
    assert_eq!(f.in_race, None);
    let p = plaintext();
    let f = parse_telemetry(&p[..0x8F]).unwrap();
    assert_eq!(f.in_race, Some(true));
    assert_eq!(f.gear, None);
    assert_eq!(f.car_id, None);
}

#[test]
fn packet_meta_reads_car_and_position() {
    let p = plaintext();
    let m = parse_packet_meta(&p);
    assert_eq!(m.car_id, Some(1234));
    assert_eq!(m.position_xz, Some((1.5f32.to_bits(), (-2.25f32).to_bits())));
    let m = parse_packet_meta(&p[..0x0E]);
    assert_eq!(m.car_id, None);
    assert_eq!(m.position_xz, None);
}

