//! The fixed-layout telemetry frame and its parser.
//!
//! Every field is read at a fixed little-endian offset and is absent when the
//! payload is too short for it. Single-precision quantities are kept as their
//! IEEE-754 bit patterns, exactly as they stand in the payload.
use vstd::prelude::*;
use crate::bytes::{
    read_f32_bits, read_i16, read_i32, read_u16, read_u8, spec_read_i16, spec_read_i32,
    spec_read_u16, spec_read_u32, spec_read_u8,
};

verus! {

/// One parsed datagram. `None` means that the payload did not reach the field.
#[derive(Clone, Copy, Debug, PartialEq, Eq, Structural)]
pub struct TelemetryFrame {
    /// World position, x.
    pub pos_x: Option<u32>,
    pub pos_y: Option<u32>,
    pub pos_z: Option<u32>,
    pub vel_x: Option<u32>,
    pub vel_y: Option<u32>,
    pub vel_z: Option<u32>,
    pub pitch: Option<u32>,
    pub rotation_yaw: Option<u32>,
    pub roll: Option<u32>,
    pub rotation_extra: Option<u32>,
    pub angular_vel_x: Option<u32>,
    pub angular_vel_y: Option<u32>,
    pub angular_vel_z: Option<u32>,
    /// Yaw rate: the angular velocity about y.
    pub yaw_rate: Option<u32>,
    /// Ride height in metres.
    pub ride_height_m: Option<u32>,
    pub rpm: Option<u32>,
    pub fuel_l: Option<u32>,
    pub fuel_capacity_l: Option<u32>,
    /// Speed in metres per second.
    pub speed_ms: Option<u32>,
    /// Absolute manifold pressure in bar (one atmosphere is no boost).
    pub boost_pressure_bar: Option<u32>,
    pub oil_pressure_bar: Option<u32>,
    pub water_temp_c: Option<u32>,
    pub oil_temp_c: Option<u32>,
    pub temp_fl_c: Option<u32>,
    pub temp_fr_c: Option<u32>,
    pub temp_rl_c: Option<u32>,
    pub temp_rr_c: Option<u32>,
    pub unknown_0x94: Option<u32>,
    pub unknown_0x98: Option<u32>,
    pub unknown_0x9c: Option<u32>,
    pub unknown_0xa0: Option<u32>,
    pub wheel_speed_fl: Option<u32>,
    pub wheel_speed_fr: Option<u32>,
    pub wheel_speed_rl: Option<u32>,
    pub wheel_speed_rr: Option<u32>,
    pub tyre_diameter_fl_m: Option<u32>,
    pub tyre_diameter_fr_m: Option<u32>,
    pub tyre_diameter_rl_m: Option<u32>,
    pub tyre_diameter_rr_m: Option<u32>,
    pub suspension_fl: Option<u32>,
    pub suspension_fr: Option<u32>,
    pub suspension_rl: Option<u32>,
    pub suspension_rr: Option<u32>,
    pub unknown_0xd4: Option<u32>,
    pub unknown_0xd8: Option<u32>,
    pub unknown_0xdc: Option<u32>,
    pub unknown_0xe0: Option<u32>,
    pub unknown_0xe4: Option<u32>,
    pub unknown_0xe8: Option<u32>,
    pub unknown_0xec: Option<u32>,
    pub unknown_0xf0: Option<u32>,
    pub clutch: Option<u32>,
    pub clutch_engaged: Option<u32>,
    pub rpm_after_clutch: Option<u32>,
    pub gear_ratio_unknown: Option<u32>,
    pub gear_ratio_1: Option<u32>,
    pub gear_ratio_2: Option<u32>,
    pub gear_ratio_3: Option<u32>,
    pub gear_ratio_4: Option<u32>,
    pub gear_ratio_5: Option<u32>,
    pub gear_ratio_6: Option<u32>,
    pub gear_ratio_7: Option<u32>,
    pub gear_ratio_8: Option<u32>,
    pub packet_id: Option<i32>,
    pub best_lap_ms: Option<i32>,
    pub last_lap_ms: Option<i32>,
    pub time_on_track_ms: Option<i32>,
    pub car_id: Option<i32>,
    pub current_lap: Option<i16>,
    pub total_laps: Option<i16>,
    pub current_position: Option<i16>,
    pub total_positions: Option<i16>,
    /// Estimated top speed in km/h.
    pub estimated_speed_kph: Option<i16>,
    pub rpm_rev_warning: Option<u16>,
    pub rpm_rev_limiter: Option<u16>,
    /// Flag byte: bit 0 in race, bit 1 paused.
    pub flags_8e: Option<u8>,
    pub flags_8f: Option<u8>,
    pub flags_93: Option<u8>,
    /// Throttle, 0 to 255.
    pub throttle_raw: Option<u8>,
    /// Brake, 0 to 255.
    pub brake_raw: Option<u8>,
    pub gear: Option<i8>,
    pub gear_raw: Option<u8>,
    pub suggested_gear: Option<u8>,
    pub in_race: Option<bool>,
    pub is_paused: Option<bool>,
    /// Timestamp given by the source; this protocol never carries one.
    pub source_timestamp_ms: Option<u64>,
}

/// Gear from the low nibble of the gear byte; 0 stands for reverse.
pub open spec fn gear_of(b: u8) -> i8 {
    if b % 16 == 0 { -1i8 } else { (b % 16) as i8 }
}

/// Bit 0 of the flag byte.
pub open spec fn in_race_bit(b: u8) -> bool {
    b % 2 == 1
}

/// Bit 1 of the flag byte.
pub open spec fn paused_bit(b: u8) -> bool {
    (b / 2) % 2 == 1
}

pub open spec fn opt_map_u8<T>(o: Option<u8>, f: spec_fn(u8) -> T) -> Option<T> {
    match o {
        Some(b) => Some(f(b)),
        None => None,
    }
}

/// The frame that the payload `p` holds, field by field.
pub open spec fn frame_of(p: Seq<u8>) -> TelemetryFrame {
    TelemetryFrame {
        pos_x: spec_read_u32(p, 0x4),
        pos_y: spec_read_u32(p, 0x8),
        pos_z: spec_read_u32(p, 0xC),
        vel_x: spec_read_u32(p, 0x10),
        vel_y: spec_read_u32(p, 0x14),
        vel_z: spec_read_u32(p, 0x18),
        pitch: spec_read_u32(p, 0x1C),
        rotation_yaw: spec_read_u32(p, 0x20),
        roll: spec_read_u32(p, 0x24),
        rotation_extra: spec_read_u32(p, 0x28),
        angular_vel_x: spec_read_u32(p, 0x2C),
        angular_vel_y: spec_read_u32(p, 0x30),
        angular_vel_z: spec_read_u32(p, 0x34),
        yaw_rate: spec_read_u32(p, 0x30),
        ride_height_m: spec_read_u32(p, 0x38),
        rpm: spec_read_u32(p, 0x3C),
        fuel_l: spec_read_u32(p, 0x44),
        fuel_capacity_l: spec_read_u32(p, 0x48),
        speed_ms: spec_read_u32(p, 0x4C),
        boost_pressure_bar: spec_read_u32(p, 0x50),
        oil_pressure_bar: spec_read_u32(p, 0x54),
        water_temp_c: spec_read_u32(p, 0x58),
        oil_temp_c: spec_read_u32(p, 0x5C),
        temp_fl_c: spec_read_u32(p, 0x60),
        temp_fr_c: spec_read_u32(p, 0x64),
        temp_rl_c: spec_read_u32(p, 0x68),
        temp_rr_c: spec_read_u32(p, 0x6C),
        unknown_0x94: spec_read_u32(p, 0x94),
        unknown_0x98: spec_read_u32(p, 0x98),
        unknown_0x9c: spec_read_u32(p, 0x9C),
        unknown_0xa0: spec_read_u32(p, 0xA0),
        wheel_speed_fl: spec_read_u32(p, 0xA4),
        wheel_speed_fr: spec_read_u32(p, 0xA8),
        wheel_speed_rl: spec_read_u32(p, 0xAC),
        wheel_speed_rr: spec_read_u32(p, 0xB0),
        tyre_diameter_fl_m: spec_read_u32(p, 0xB4),
        tyre_diameter_fr_m: spec_read_u32(p, 0xB8),
        tyre_diameter_rl_m: spec_read_u32(p, 0xBC),
        tyre_diameter_rr_m: spec_read_u32(p, 0xC0),
        suspension_fl: spec_read_u32(p, 0xC4),
        suspension_fr: spec_read_u32(p, 0xC8),
        suspension_rl: spec_read_u32(p, 0xCC),
        suspension_rr: spec_read_u32(p, 0xD0),
        unknown_0xd4: spec_read_u32(p, 0xD4),
        unknown_0xd8: spec_read_u32(p, 0xD8),
        unknown_0xdc: spec_read_u32(p, 0xDC),
        unknown_0xe0: spec_read_u32(p, 0xE0),
        unknown_0xe4: spec_read_u32(p, 0xE4),
        unknown_0xe8: spec_read_u32(p, 0xE8),
        unknown_0xec: spec_read_u32(p, 0xEC),
        unknown_0xf0: spec_read_u32(p, 0xF0),
        clutch: spec_read_u32(p, 0xF4),
        clutch_engaged: spec_read_u32(p, 0xF8),
        rpm_after_clutch: spec_read_u32(p, 0xFC),
        gear_ratio_unknown: spec_read_u32(p, 0x100),
        gear_ratio_1: spec_read_u32(p, 0x104),
        gear_ratio_2: spec_read_u32(p, 0x108),
        gear_ratio_3: spec_read_u32(p, 0x10C),
        gear_ratio_4: spec_read_u32(p, 0x110),
        gear_ratio_5: spec_read_u32(p, 0x114),
        gear_ratio_6: spec_read_u32(p, 0x118),
        gear_ratio_7: spec_read_u32(p, 0x11C),
        gear_ratio_8: spec_read_u32(p, 0x120),
        packet_id: spec_read_i32(p, 0x70),
        best_lap_ms: spec_read_i32(p, 0x78),
        last_lap_ms: spec_read_i32(p, 0x7C),
        time_on_track_ms: spec_read_i32(p, 0x80),
        car_id: spec_read_i32(p, 0x124),
        current_lap: spec_read_i16(p, 0x74),
        total_laps: spec_read_i16(p, 0x76),
        current_position: spec_read_i16(p, 0x84),
        total_positions: spec_read_i16(p, 0x86),
        estimated_speed_kph: spec_read_i16(p, 0x8C),
        rpm_rev_warning: spec_read_u16(p, 0x88),
        rpm_rev_limiter: spec_read_u16(p, 0x8A),
        flags_8e: spec_read_u8(p, 0x8E),
        flags_8f: spec_read_u8(p, 0x8F),
        flags_93: spec_read_u8(p, 0x93),
        throttle_raw: spec_read_u8(p, 0x91),
        brake_raw: spec_read_u8(p, 0x92),
        gear: opt_map_u8(spec_read_u8(p, 0x90), |b: u8| gear_of(b)),
        gear_raw: opt_map_u8(spec_read_u8(p, 0x90), |b: u8| b % 16),
        suggested_gear: opt_map_u8(spec_read_u8(p, 0x90), |b: u8| b / 16),
        in_race: opt_map_u8(spec_read_u8(p, 0x8E), |b: u8| in_race_bit(b)),
        is_paused: opt_map_u8(spec_read_u8(p, 0x8E), |b: u8| paused_bit(b)),
        source_timestamp_ms: None,
    }
}

/// At least one field of `f` is present.
pub open spec fn has_any_field(f: TelemetryFrame) -> bool {
    f.pos_x is Some
        || f.pos_y is Some
        || f.pos_z is Some
        || f.vel_x is Some
        || f.vel_y is Some
        || f.vel_z is Some
        || f.pitch is Some
        || f.rotation_yaw is Some
        || f.roll is Some
        || f.rotation_extra is Some
        || f.angular_vel_x is Some
        || f.angular_vel_y is Some
        || f.angular_vel_z is Some
        || f.yaw_rate is Some
        || f.ride_height_m is Some
        || f.rpm is Some
        || f.fuel_l is Some
        || f.fuel_capacity_l is Some
        || f.speed_ms is Some
        || f.boost_pressure_bar is Some
        || f.oil_pressure_bar is Some
        || f.water_temp_c is Some
        || f.oil_temp_c is Some
        || f.temp_fl_c is Some
        || f.temp_fr_c is Some
        || f.temp_rl_c is Some
        || f.temp_rr_c is Some
        || f.unknown_0x94 is Some
        || f.unknown_0x98 is Some
        || f.unknown_0x9c is Some
        || f.unknown_0xa0 is Some
        || f.wheel_speed_fl is Some
        || f.wheel_speed_fr is Some
        || f.wheel_speed_rl is Some
        || f.wheel_speed_rr is Some
        || f.tyre_diameter_fl_m is Some
        || f.tyre_diameter_fr_m is Some
        || f.tyre_diameter_rl_m is Some
        || f.tyre_diameter_rr_m is Some
        || f.suspension_fl is Some
        || f.suspension_fr is Some
        || f.suspension_rl is Some
        || f.suspension_rr is Some
        || f.unknown_0xd4 is Some
        || f.unknown_0xd8 is Some
        || f.unknown_0xdc is Some
        || f.unknown_0xe0 is Some
        || f.unknown_0xe4 is Some
        || f.unknown_0xe8 is Some
        || f.unknown_0xec is Some
        || f.unknown_0xf0 is Some
        || f.clutch is Some
        || f.clutch_engaged is Some
        || f.rpm_after_clutch is Some
        || f.gear_ratio_unknown is Some
        || f.gear_ratio_1 is Some
        || f.gear_ratio_2 is Some
        || f.gear_ratio_3 is Some
        || f.gear_ratio_4 is Some
        || f.gear_ratio_5 is Some
        || f.gear_ratio_6 is Some
        || f.gear_ratio_7 is Some
        || f.gear_ratio_8 is Some
        || f.packet_id is Some
        || f.best_lap_ms is Some
        || f.last_lap_ms is Some
        || f.time_on_track_ms is Some
        || f.car_id is Some
        || f.current_lap is Some
        || f.total_laps is Some
        || f.current_position is Some
        || f.total_positions is Some
        || f.estimated_speed_kph is Some
        || f.rpm_rev_warning is Some
        || f.rpm_rev_limiter is Some
        || f.flags_8e is Some
        || f.flags_8f is Some
        || f.flags_93 is Some
        || f.throttle_raw is Some
        || f.brake_raw is Some
        || f.gear is Some
        || f.gear_raw is Some
        || f.suggested_gear is Some
        || f.in_race is Some
        || f.is_paused is Some
}

/// A frame has some field exactly when the payload reaches past the first
/// position word.
pub proof fn lemma_has_any_field_iff_len(p: Seq<u8>)
    ensures
        has_any_field(frame_of(p)) <==> p.len() >= 8,
{
}

fn frame_has_any(f: &TelemetryFrame) -> (r: bool)
    ensures
        r == has_any_field(*f),
{
    f.pos_x.is_some()
        || f.pos_y.is_some()
        || f.pos_z.is_some()
        || f.vel_x.is_some()
        || f.vel_y.is_some()
        || f.vel_z.is_some()
        || f.pitch.is_some()
        || f.rotation_yaw.is_some()
        || f.roll.is_some()
        || f.rotation_extra.is_some()
        || f.angular_vel_x.is_some()
        || f.angular_vel_y.is_some()
        || f.angular_vel_z.is_some()
        || f.yaw_rate.is_some()
        || f.ride_height_m.is_some()
        || f.rpm.is_some()
        || f.fuel_l.is_some()
        || f.fuel_capacity_l.is_some()
        || f.speed_ms.is_some()
        || f.boost_pressure_bar.is_some()
        || f.oil_pressure_bar.is_some()
        || f.water_temp_c.is_some()
        || f.oil_temp_c.is_some()
        || f.temp_fl_c.is_some()
        || f.temp_fr_c.is_some()
        || f.temp_rl_c.is_some()
        || f.temp_rr_c.is_some()
        || f.unknown_0x94.is_some()
        || f.unknown_0x98.is_some()
        || f.unknown_0x9c.is_some()
        || f.unknown_0xa0.is_some()
        || f.wheel_speed_fl.is_some()
        || f.wheel_speed_fr.is_some()
        || f.wheel_speed_rl.is_some()
        || f.wheel_speed_rr.is_some()
        || f.tyre_diameter_fl_m.is_some()
        || f.tyre_diameter_fr_m.is_some()
        || f.tyre_diameter_rl_m.is_some()
        || f.tyre_diameter_rr_m.is_some()
        || f.suspension_fl.is_some()
        || f.suspension_fr.is_some()
        || f.suspension_rl.is_some()
        || f.suspension_rr.is_some()
        || f.unknown_0xd4.is_some()
        || f.unknown_0xd8.is_some()
        || f.unknown_0xdc.is_some()
        || f.unknown_0xe0.is_some()
        || f.unknown_0xe4.is_some()
        || f.unknown_0xe8.is_some()
        || f.unknown_0xec.is_some()
        || f.unknown_0xf0.is_some()
        || f.clutch.is_some()
        || f.clutch_engaged.is_some()
        || f.rpm_after_clutch.is_some()
        || f.gear_ratio_unknown.is_some()
        || f.gear_ratio_1.is_some()
        || f.gear_ratio_2.is_some()
        || f.gear_ratio_3.is_some()
        || f.gear_ratio_4.is_some()
        || f.gear_ratio_5.is_some()
        || f.gear_ratio_6.is_some()
        || f.gear_ratio_7.is_some()
        || f.gear_ratio_8.is_some()
        || f.packet_id.is_some()
        || f.best_lap_ms.is_some()
        || f.last_lap_ms.is_some()
        || f.time_on_track_ms.is_some()
        || f.car_id.is_some()
        || f.current_lap.is_some()
        || f.total_laps.is_some()
        || f.current_position.is_some()
        || f.total_positions.is_some()
        || f.estimated_speed_kph.is_some()
        || f.rpm_rev_warning.is_some()
        || f.rpm_rev_limiter.is_some()
        || f.flags_8e.is_some()
        || f.flags_8f.is_some()
        || f.flags_93.is_some()
        || f.throttle_raw.is_some()
        || f.brake_raw.is_some()
        || f.gear.is_some()
        || f.gear_raw.is_some()
        || f.suggested_gear.is_some()
        || f.in_race.is_some()
        || f.is_paused.is_some()
}

/// Parses a decrypted payload. Returns a frame when at least one field is in
/// range, that is when the payload has at least 8 bytes.
pub fn parse_telemetry(payload: &[u8]) -> (r: Option<TelemetryFrame>)
    ensures
        r == (if has_any_field(frame_of(payload@)) { Some(frame_of(payload@)) } else { None }),
        r is Some <==> payload@.len() >= 8,
{
    let gear_byte = read_u8(payload, 0x90);
    let flags = read_u8(payload, 0x8E);
    let frame = TelemetryFrame {
        pos_x: read_f32_bits(payload, 0x4),
        pos_y: read_f32_bits(payload, 0x8),
        pos_z: read_f32_bits(payload, 0xC),
        vel_x: read_f32_bits(payload, 0x10),
        vel_y: read_f32_bits(payload, 0x14),
        vel_z: read_f32_bits(payload, 0x18),
        pitch: read_f32_bits(payload, 0x1C),
        rotation_yaw: read_f32_bits(payload, 0x20),
        roll: read_f32_bits(payload, 0x24),
        rotation_extra: read_f32_bits(payload, 0x28),
        angular_vel_x: read_f32_bits(payload, 0x2C),
        angular_vel_y: read_f32_bits(payload, 0x30),
        angular_vel_z: read_f32_bits(payload, 0x34),
        yaw_rate: read_f32_bits(payload, 0x30),
        ride_height_m: read_f32_bits(payload, 0x38),
        rpm: read_f32_bits(payload, 0x3C),
        fuel_l: read_f32_bits(payload, 0x44),
        fuel_capacity_l: read_f32_bits(payload, 0x48),
        speed_ms: read_f32_bits(payload, 0x4C),
        boost_pressure_bar: read_f32_bits(payload, 0x50),
        oil_pressure_bar: read_f32_bits(payload, 0x54),
        water_temp_c: read_f32_bits(payload, 0x58),
        oil_temp_c: read_f32_bits(payload, 0x5C),
        temp_fl_c: read_f32_bits(payload, 0x60),
        temp_fr_c: read_f32_bits(payload, 0x64),
        temp_rl_c: read_f32_bits(payload, 0x68),
        temp_rr_c: read_f32_bits(payload, 0x6C),
        unknown_0x94: read_f32_bits(payload, 0x94),
        unknown_0x98: read_f32_bits(payload, 0x98),
        unknown_0x9c: read_f32_bits(payload, 0x9C),
        unknown_0xa0: read_f32_bits(payload, 0xA0),
        wheel_speed_fl: read_f32_bits(payload, 0xA4),
        wheel_speed_fr: read_f32_bits(payload, 0xA8),
        wheel_speed_rl: read_f32_bits(payload, 0xAC),
        wheel_speed_rr: read_f32_bits(payload, 0xB0),
        tyre_diameter_fl_m: read_f32_bits(payload, 0xB4),
        tyre_diameter_fr_m: read_f32_bits(payload, 0xB8),
        tyre_diameter_rl_m: read_f32_bits(payload, 0xBC),
        tyre_diameter_rr_m: read_f32_bits(payload, 0xC0),
        suspension_fl: read_f32_bits(payload, 0xC4),
        suspension_fr: read_f32_bits(payload, 0xC8),
        suspension_rl: read_f32_bits(payload, 0xCC),
        suspension_rr: read_f32_bits(payload, 0xD0),
        unknown_0xd4: read_f32_bits(payload, 0xD4),
        unknown_0xd8: read_f32_bits(payload, 0xD8),
        unknown_0xdc: read_f32_bits(payload, 0xDC),
        unknown_0xe0: read_f32_bits(payload, 0xE0),
        unknown_0xe4: read_f32_bits(payload, 0xE4),
        unknown_0xe8: read_f32_bits(payload, 0xE8),
        unknown_0xec: read_f32_bits(payload, 0xEC),
        unknown_0xf0: read_f32_bits(payload, 0xF0),
        clutch: read_f32_bits(payload, 0xF4),
        clutch_engaged: read_f32_bits(payload, 0xF8),
        rpm_after_clutch: read_f32_bits(payload, 0xFC),
        gear_ratio_unknown: read_f32_bits(payload, 0x100),
        gear_ratio_1: read_f32_bits(payload, 0x104),
        gear_ratio_2: read_f32_bits(payload, 0x108),
        gear_ratio_3: read_f32_bits(payload, 0x10C),
        gear_ratio_4: read_f32_bits(payload, 0x110),
        gear_ratio_5: read_f32_bits(payload, 0x114),
        gear_ratio_6: read_f32_bits(payload, 0x118),
        gear_ratio_7: read_f32_bits(payload, 0x11C),
        gear_ratio_8: read_f32_bits(payload, 0x120),
        packet_id: read_i32(payload, 0x70),
        best_lap_ms: read_i32(payload, 0x78),
        last_lap_ms: read_i32(payload, 0x7C),
        time_on_track_ms: read_i32(payload, 0x80),
        car_id: read_i32(payload, 0x124),
        current_lap: read_i16(payload, 0x74),
        total_laps: read_i16(payload, 0x76),
        current_position: read_i16(payload, 0x84),
        total_positions: read_i16(payload, 0x86),
        estimated_speed_kph: read_i16(payload, 0x8C),
        rpm_rev_warning: read_u16(payload, 0x88),
        rpm_rev_limiter: read_u16(payload, 0x8A),
        flags_8e: read_u8(payload, 0x8E),
        flags_8f: read_u8(payload, 0x8F),
        flags_93: read_u8(payload, 0x93),
        throttle_raw: read_u8(payload, 0x91),
        brake_raw: read_u8(payload, 0x92),
        gear: match gear_byte {
            Some(b) => Some(if b % 16 == 0 { -1i8 } else { (b % 16) as i8 }),
            None => None,
        },
        gear_raw: match gear_byte {
            Some(b) => Some(b % 16),
            None => None,
        },
        suggested_gear: match gear_byte {
            Some(b) => Some(b / 16),
            None => None,
        },
        in_race: match flags {
            Some(b) => Some(b % 2 == 1),
            None => None,
        },
        is_paused: match flags {
            Some(b) => Some((b / 2) % 2 == 1),
            None => None,
        },
        source_timestamp_ms: None,
    };
    assert(frame == frame_of(payload@));
    proof {
        lemma_has_any_field_iff_len(payload@);
    }
    if !frame_has_any(&frame) {
        return None;
    }
    Some(frame)
}

/// Car identity and horizontal position, read straight from a payload.
#[derive(Clone, Copy, Debug)]
pub struct PacketMeta {
    pub car_id: Option<i32>,
    /// Bit patterns of the x and z world coordinates, when both are present.
    pub position_xz: Option<(u32, u32)>,
}

/// Reads the car id and the horizontal position of a payload.
pub fn parse_packet_meta(payload: &[u8]) -> (r: PacketMeta)
    ensures
        r.car_id == spec_read_i32(payload@, 0x124),
        r.position_xz == (match (spec_read_u32(payload@, 0x04), spec_read_u32(payload@, 0x0C)) {
            (Some(x), Some(z)) => Some((x, z)),
            _ => None,
        }),
{
    let car_id = read_i32(payload, 0x124);
    let pos_x = read_f32_bits(payload, 0x04);
    let pos_z = read_f32_bits(payload, 0x0C);
    let position_xz = match (pos_x, pos_z) {
        (Some(x), Some(z)) => Some((x, z)),
        _ => None,
    };
    PacketMeta { car_id, position_xz }
}

} // verus!
