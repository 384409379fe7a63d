//! The latest merged view of a session: every frame field ever seen, plus
//! the derived lap time and track identity.
use vstd::prelude::*;
use crate::frame::TelemetryFrame;

verus! {

/// A field keeps its value unless the newer value is present.
pub open spec fn pick<T>(old: Option<T>, new: Option<T>) -> Option<T> {
    if new is Some { new } else { old }
}

/// The newer value when it is present, else the older one.
pub fn pick_present<T: Copy>(old: Option<T>, new: Option<T>) -> (r: Option<T>)
    ensures
        r == pick(old, new),
{
    match new {
        Some(_) => new,
        None => old,
    }
}

#[derive(Clone, Copy, Debug, PartialEq, Eq, Structural)]
pub struct State {
    pub pos_x: Option<u32>,
    pub pos_y: Option<u32>,
    pub pos_z: Option<u32>,
    pub vel_x: Option<u32>,
    pub vel_y: Option<u32>,
    pub vel_z: Option<u32>,
    pub pitch: Option<u32>,
    pub rotation_yaw: Option<u32>,
    pub roll: Option<u32>,
    pub rotation_extra: Option<u32>,
    pub angular_vel_x: Option<u32>,
    pub angular_vel_y: Option<u32>,
    pub angular_vel_z: Option<u32>,
    pub yaw_rate: Option<u32>,
    pub ride_height_m: Option<u32>,
    pub rpm: Option<u32>,
    pub fuel_l: Option<u32>,
    pub fuel_capacity_l: Option<u32>,
    pub speed_ms: Option<u32>,
    pub boost_pressure_bar: Option<u32>,
    pub oil_pressure_bar: Option<u32>,
    pub water_temp_c: Option<u32>,
    pub oil_temp_c: Option<u32>,
    pub temp_fl_c: Option<u32>,
    pub temp_fr_c: Option<u32>,
    pub temp_rl_c: Option<u32>,
    pub temp_rr_c: Option<u32>,
    pub unknown_0x94: Option<u32>,
    pub unknown_0x98: Option<u32>,
    pub unknown_0x9c: Option<u32>,
    pub unknown_0xa0: Option<u32>,
    pub wheel_speed_fl: Option<u32>,
    pub wheel_speed_fr: Option<u32>,
    pub wheel_speed_rl: Option<u32>,
    pub wheel_speed_rr: Option<u32>,
    pub tyre_diameter_fl_m: Option<u32>,
    pub tyre_diameter_fr_m: Option<u32>,
    pub tyre_diameter_rl_m: Option<u32>,
    pub tyre_diameter_rr_m: Option<u32>,
    pub suspension_fl: Option<u32>,
    pub suspension_fr: Option<u32>,
    pub suspension_rl: Option<u32>,
    pub suspension_rr: Option<u32>,
    pub unknown_0xd4: Option<u32>,
    pub unknown_0xd8: Option<u32>,
    pub unknown_0xdc: Option<u32>,
    pub unknown_0xe0: Option<u32>,
    pub unknown_0xe4: Option<u32>,
    pub unknown_0xe8: Option<u32>,
    pub unknown_0xec: Option<u32>,
    pub unknown_0xf0: Option<u32>,
    pub clutch: Option<u32>,
    pub clutch_engaged: Option<u32>,
    pub rpm_after_clutch: Option<u32>,
    pub gear_ratio_unknown: Option<u32>,
    pub gear_ratio_1: Option<u32>,
    pub gear_ratio_2: Option<u32>,
    pub gear_ratio_3: Option<u32>,
    pub gear_ratio_4: Option<u32>,
    pub gear_ratio_5: Option<u32>,
    pub gear_ratio_6: Option<u32>,
    pub gear_ratio_7: Option<u32>,
    pub gear_ratio_8: Option<u32>,
    pub packet_id: Option<i32>,
    pub best_lap_ms: Option<i32>,
    pub last_lap_ms: Option<i32>,
    pub time_on_track_ms: Option<i32>,
    pub car_id: Option<i32>,
    pub current_lap: Option<i16>,
    pub total_laps: Option<i16>,
    pub current_position: Option<i16>,
    pub total_positions: Option<i16>,
    pub estimated_speed_kph: Option<i16>,
    pub rpm_rev_warning: Option<u16>,
    pub rpm_rev_limiter: Option<u16>,
    pub flags_8e: Option<u8>,
    pub flags_8f: Option<u8>,
    pub flags_93: Option<u8>,
    pub throttle_raw: Option<u8>,
    pub brake_raw: Option<u8>,
    pub gear: Option<i8>,
    pub gear_raw: Option<u8>,
    pub suggested_gear: Option<u8>,
    pub in_race: Option<bool>,
    pub is_paused: Option<bool>,
    /// Time into the current lap, pauses excluded.
    pub current_lap_time_ms: Option<i32>,
    /// Track identified for this session.
    pub track_id: Option<i32>,
}

/// The state with every field absent.
pub open spec fn empty_state() -> State {
    State {
        pos_x: None,
        pos_y: None,
        pos_z: None,
        vel_x: None,
        vel_y: None,
        vel_z: None,
        pitch: None,
        rotation_yaw: None,
        roll: None,
        rotation_extra: None,
        angular_vel_x: None,
        angular_vel_y: None,
        angular_vel_z: None,
        yaw_rate: None,
        ride_height_m: None,
        rpm: None,
        fuel_l: None,
        fuel_capacity_l: None,
        speed_ms: None,
        boost_pressure_bar: None,
        oil_pressure_bar: None,
        water_temp_c: None,
        oil_temp_c: None,
        temp_fl_c: None,
        temp_fr_c: None,
        temp_rl_c: None,
        temp_rr_c: None,
        unknown_0x94: None,
        unknown_0x98: None,
        unknown_0x9c: None,
        unknown_0xa0: None,
        wheel_speed_fl: None,
        wheel_speed_fr: None,
        wheel_speed_rl: None,
        wheel_speed_rr: None,
        tyre_diameter_fl_m: None,
        tyre_diameter_fr_m: None,
        tyre_diameter_rl_m: None,
        tyre_diameter_rr_m: None,
        suspension_fl: None,
        suspension_fr: None,
        suspension_rl: None,
        suspension_rr: None,
        unknown_0xd4: None,
        unknown_0xd8: None,
        unknown_0xdc: None,
        unknown_0xe0: None,
        unknown_0xe4: None,
        unknown_0xe8: None,
        unknown_0xec: None,
        unknown_0xf0: None,
        clutch: None,
        clutch_engaged: None,
        rpm_after_clutch: None,
        gear_ratio_unknown: None,
        gear_ratio_1: None,
        gear_ratio_2: None,
        gear_ratio_3: None,
        gear_ratio_4: None,
        gear_ratio_5: None,
        gear_ratio_6: None,
        gear_ratio_7: None,
        gear_ratio_8: None,
        packet_id: None,
        best_lap_ms: None,
        last_lap_ms: None,
        time_on_track_ms: None,
        car_id: None,
        current_lap: None,
        total_laps: None,
        current_position: None,
        total_positions: None,
        estimated_speed_kph: None,
        rpm_rev_warning: None,
        rpm_rev_limiter: None,
        flags_8e: None,
        flags_8f: None,
        flags_93: None,
        throttle_raw: None,
        brake_raw: None,
        gear: None,
        gear_raw: None,
        suggested_gear: None,
        in_race: None,
        is_paused: None,
        current_lap_time_ms: None,
        track_id: None,
    }
}

/// `s` with every field that `f` carries overwritten by it.
pub open spec fn merged(s: State, f: TelemetryFrame) -> State {
    State {
        pos_x: pick(s.pos_x, f.pos_x),
        pos_y: pick(s.pos_y, f.pos_y),
        pos_z: pick(s.pos_z, f.pos_z),
        vel_x: pick(s.vel_x, f.vel_x),
        vel_y: pick(s.vel_y, f.vel_y),
        vel_z: pick(s.vel_z, f.vel_z),
        pitch: pick(s.pitch, f.pitch),
        rotation_yaw: pick(s.rotation_yaw, f.rotation_yaw),
        roll: pick(s.roll, f.roll),
        rotation_extra: pick(s.rotation_extra, f.rotation_extra),
        angular_vel_x: pick(s.angular_vel_x, f.angular_vel_x),
        angular_vel_y: pick(s.angular_vel_y, f.angular_vel_y),
        angular_vel_z: pick(s.angular_vel_z, f.angular_vel_z),
        yaw_rate: pick(s.yaw_rate, f.yaw_rate),
        ride_height_m: pick(s.ride_height_m, f.ride_height_m),
        rpm: pick(s.rpm, f.rpm),
        fuel_l: pick(s.fuel_l, f.fuel_l),
        fuel_capacity_l: pick(s.fuel_capacity_l, f.fuel_capacity_l),
        speed_ms: pick(s.speed_ms, f.speed_ms),
        boost_pressure_bar: pick(s.boost_pressure_bar, f.boost_pressure_bar),
        oil_pressure_bar: pick(s.oil_pressure_bar, f.oil_pressure_bar),
        water_temp_c: pick(s.water_temp_c, f.water_temp_c),
        oil_temp_c: pick(s.oil_temp_c, f.oil_temp_c),
        temp_fl_c: pick(s.temp_fl_c, f.temp_fl_c),
        temp_fr_c: pick(s.temp_fr_c, f.temp_fr_c),
        temp_rl_c: pick(s.temp_rl_c, f.temp_rl_c),
        temp_rr_c: pick(s.temp_rr_c, f.temp_rr_c),
        unknown_0x94: pick(s.unknown_0x94, f.unknown_0x94),
        unknown_0x98: pick(s.unknown_0x98, f.unknown_0x98),
        unknown_0x9c: pick(s.unknown_0x9c, f.unknown_0x9c),
        unknown_0xa0: pick(s.unknown_0xa0, f.unknown_0xa0),
        wheel_speed_fl: pick(s.wheel_speed_fl, f.wheel_speed_fl),
        wheel_speed_fr: pick(s.wheel_speed_fr, f.wheel_speed_fr),
        wheel_speed_rl: pick(s.wheel_speed_rl, f.wheel_speed_rl),
        wheel_speed_rr: pick(s.wheel_speed_rr, f.wheel_speed_rr),
        tyre_diameter_fl_m: pick(s.tyre_diameter_fl_m, f.tyre_diameter_fl_m),
        tyre_diameter_fr_m: pick(s.tyre_diameter_fr_m, f.tyre_diameter_fr_m),
        tyre_diameter_rl_m: pick(s.tyre_diameter_rl_m, f.tyre_diameter_rl_m),
        tyre_diameter_rr_m: pick(s.tyre_diameter_rr_m, f.tyre_diameter_rr_m),
        suspension_fl: pick(s.suspension_fl, f.suspension_fl),
        suspension_fr: pick(s.suspension_fr, f.suspension_fr),
        suspension_rl: pick(s.suspension_rl, f.suspension_rl),
        suspension_rr: pick(s.suspension_rr, f.suspension_rr),
        unknown_0xd4: pick(s.unknown_0xd4, f.unknown_0xd4),
        unknown_0xd8: pick(s.unknown_0xd8, f.unknown_0xd8),
        unknown_0xdc: pick(s.unknown_0xdc, f.unknown_0xdc),
        unknown_0xe0: pick(s.unknown_0xe0, f.unknown_0xe0),
        unknown_0xe4: pick(s.unknown_0xe4, f.unknown_0xe4),
        unknown_0xe8: pick(s.unknown_0xe8, f.unknown_0xe8),
        unknown_0xec: pick(s.unknown_0xec, f.unknown_0xec),
        unknown_0xf0: pick(s.unknown_0xf0, f.unknown_0xf0),
        clutch: pick(s.clutch, f.clutch),
        clutch_engaged: pick(s.clutch_engaged, f.clutch_engaged),
        rpm_after_clutch: pick(s.rpm_after_clutch, f.rpm_after_clutch),
        gear_ratio_unknown: pick(s.gear_ratio_unknown, f.gear_ratio_unknown),
        gear_ratio_1: pick(s.gear_ratio_1, f.gear_ratio_1),
        gear_ratio_2: pick(s.gear_ratio_2, f.gear_ratio_2),
        gear_ratio_3: pick(s.gear_ratio_3, f.gear_ratio_3),
        gear_ratio_4: pick(s.gear_ratio_4, f.gear_ratio_4),
        gear_ratio_5: pick(s.gear_ratio_5, f.gear_ratio_5),
        gear_ratio_6: pick(s.gear_ratio_6, f.gear_ratio_6),
        gear_ratio_7: pick(s.gear_ratio_7, f.gear_ratio_7),
        gear_ratio_8: pick(s.gear_ratio_8, f.gear_ratio_8),
        packet_id: pick(s.packet_id, f.packet_id),
        best_lap_ms: pick(s.best_lap_ms, f.best_lap_ms),
        last_lap_ms: pick(s.last_lap_ms, f.last_lap_ms),
        time_on_track_ms: pick(s.time_on_track_ms, f.time_on_track_ms),
        car_id: pick(s.car_id, f.car_id),
        current_lap: pick(s.current_lap, f.current_lap),
        total_laps: pick(s.total_laps, f.total_laps),
        current_position: pick(s.current_position, f.current_position),
        total_positions: pick(s.total_positions, f.total_positions),
        estimated_speed_kph: pick(s.estimated_speed_kph, f.estimated_speed_kph),
        rpm_rev_warning: pick(s.rpm_rev_warning, f.rpm_rev_warning),
        rpm_rev_limiter: pick(s.rpm_rev_limiter, f.rpm_rev_limiter),
        flags_8e: pick(s.flags_8e, f.flags_8e),
        flags_8f: pick(s.flags_8f, f.flags_8f),
        flags_93: pick(s.flags_93, f.flags_93),
        throttle_raw: pick(s.throttle_raw, f.throttle_raw),
        brake_raw: pick(s.brake_raw, f.brake_raw),
        gear: pick(s.gear, f.gear),
        gear_raw: pick(s.gear_raw, f.gear_raw),
        suggested_gear: pick(s.suggested_gear, f.suggested_gear),
        in_race: pick(s.in_race, f.in_race),
        is_paused: pick(s.is_paused, f.is_paused),
        current_lap_time_ms: s.current_lap_time_ms,
        track_id: s.track_id,
    }
}

impl State {
    pub fn new() -> (r: State)
        ensures
            r == empty_state(),
    {
        State {
            pos_x: None,
            pos_y: None,
            pos_z: None,
            vel_x: None,
            vel_y: None,
            vel_z: None,
            pitch: None,
            rotation_yaw: None,
            roll: None,
            rotation_extra: None,
            angular_vel_x: None,
            angular_vel_y: None,
            angular_vel_z: None,
            yaw_rate: None,
            ride_height_m: None,
            rpm: None,
            fuel_l: None,
            fuel_capacity_l: None,
            speed_ms: None,
            boost_pressure_bar: None,
            oil_pressure_bar: None,
            water_temp_c: None,
            oil_temp_c: None,
            temp_fl_c: None,
            temp_fr_c: None,
            temp_rl_c: None,
            temp_rr_c: None,
            unknown_0x94: None,
            unknown_0x98: None,
            unknown_0x9c: None,
            unknown_0xa0: None,
            wheel_speed_fl: None,
            wheel_speed_fr: None,
            wheel_speed_rl: None,
            wheel_speed_rr: None,
            tyre_diameter_fl_m: None,
            tyre_diameter_fr_m: None,
            tyre_diameter_rl_m: None,
            tyre_diameter_rr_m: None,
            suspension_fl: None,
            suspension_fr: None,
            suspension_rl: None,
            suspension_rr: None,
            unknown_0xd4: None,
            unknown_0xd8: None,
            unknown_0xdc: None,
            unknown_0xe0: None,
            unknown_0xe4: None,
            unknown_0xe8: None,
            unknown_0xec: None,
            unknown_0xf0: None,
            clutch: None,
            clutch_engaged: None,
            rpm_after_clutch: None,
            gear_ratio_unknown: None,
            gear_ratio_1: None,
            gear_ratio_2: None,
            gear_ratio_3: None,
            gear_ratio_4: None,
            gear_ratio_5: None,
            gear_ratio_6: None,
            gear_ratio_7: None,
            gear_ratio_8: None,
            packet_id: None,
            best_lap_ms: None,
            last_lap_ms: None,
            time_on_track_ms: None,
            car_id: None,
            current_lap: None,
            total_laps: None,
            current_position: None,
            total_positions: None,
            estimated_speed_kph: None,
            rpm_rev_warning: None,
            rpm_rev_limiter: None,
            flags_8e: None,
            flags_8f: None,
            flags_93: None,
            throttle_raw: None,
            brake_raw: None,
            gear: None,
            gear_raw: None,
            suggested_gear: None,
            in_race: None,
            is_paused: None,
            current_lap_time_ms: None,
            track_id: None,
        }
    }

    /// Overwrites each field that the frame carries; the others keep their value.
    pub fn update_from(&mut self, frame: &TelemetryFrame)
        ensures
            *final(self) == merged(*old(self), *frame),
    {
        let s = *self;
        *self = State {
            pos_x: pick_present(s.pos_x, frame.pos_x),
            pos_y: pick_present(s.pos_y, frame.pos_y),
            pos_z: pick_present(s.pos_z, frame.pos_z),
            vel_x: pick_present(s.vel_x, frame.vel_x),
            vel_y: pick_present(s.vel_y, frame.vel_y),
            vel_z: pick_present(s.vel_z, frame.vel_z),
            pitch: pick_present(s.pitch, frame.pitch),
            rotation_yaw: pick_present(s.rotation_yaw, frame.rotation_yaw),
            roll: pick_present(s.roll, frame.roll),
            rotation_extra: pick_present(s.rotation_extra, frame.rotation_extra),
            angular_vel_x: pick_present(s.angular_vel_x, frame.angular_vel_x),
            angular_vel_y: pick_present(s.angular_vel_y, frame.angular_vel_y),
            angular_vel_z: pick_present(s.angular_vel_z, frame.angular_vel_z),
            yaw_rate: pick_present(s.yaw_rate, frame.yaw_rate),
            ride_height_m: pick_present(s.ride_height_m, frame.ride_height_m),
            rpm: pick_present(s.rpm, frame.rpm),
            fuel_l: pick_present(s.fuel_l, frame.fuel_l),
            fuel_capacity_l: pick_present(s.fuel_capacity_l, frame.fuel_capacity_l),
            speed_ms: pick_present(s.speed_ms, frame.speed_ms),
            boost_pressure_bar: pick_present(s.boost_pressure_bar, frame.boost_pressure_bar),
            oil_pressure_bar: pick_present(s.oil_pressure_bar, frame.oil_pressure_bar),
            water_temp_c: pick_present(s.water_temp_c, frame.water_temp_c),
            oil_temp_c: pick_present(s.oil_temp_c, frame.oil_temp_c),
            temp_fl_c: pick_present(s.temp_fl_c, frame.temp_fl_c),
            temp_fr_c: pick_present(s.temp_fr_c, frame.temp_fr_c),
            temp_rl_c: pick_present(s.temp_rl_c, frame.temp_rl_c),
            temp_rr_c: pick_present(s.temp_rr_c, frame.temp_rr_c),
            unknown_0x94: pick_present(s.unknown_0x94, frame.unknown_0x94),
            unknown_0x98: pick_present(s.unknown_0x98, frame.unknown_0x98),
            unknown_0x9c: pick_present(s.unknown_0x9c, frame.unknown_0x9c),
            unknown_0xa0: pick_present(s.unknown_0xa0, frame.unknown_0xa0),
            wheel_speed_fl: pick_present(s.wheel_speed_fl, frame.wheel_speed_fl),
            wheel_speed_fr: pick_present(s.wheel_speed_fr, frame.wheel_speed_fr),
            wheel_speed_rl: pick_present(s.wheel_speed_rl, frame.wheel_speed_rl),
            wheel_speed_rr: pick_present(s.wheel_speed_rr, frame.wheel_speed_rr),
            tyre_diameter_fl_m: pick_present(s.tyre_diameter_fl_m, frame.tyre_diameter_fl_m),
            tyre_diameter_fr_m: pick_present(s.tyre_diameter_fr_m, frame.tyre_diameter_fr_m),
            tyre_diameter_rl_m: pick_present(s.tyre_diameter_rl_m, frame.tyre_diameter_rl_m),
            tyre_diameter_rr_m: pick_present(s.tyre_diameter_rr_m, frame.tyre_diameter_rr_m),
            suspension_fl: pick_present(s.suspension_fl, frame.suspension_fl),
            suspension_fr: pick_present(s.suspension_fr, frame.suspension_fr),
            suspension_rl: pick_present(s.suspension_rl, frame.suspension_rl),
            suspension_rr: pick_present(s.suspension_rr, frame.suspension_rr),
            unknown_0xd4: pick_present(s.unknown_0xd4, frame.unknown_0xd4),
            unknown_0xd8: pick_present(s.unknown_0xd8, frame.unknown_0xd8),
            unknown_0xdc: pick_present(s.unknown_0xdc, frame.unknown_0xdc),
            unknown_0xe0: pick_present(s.unknown_0xe0, frame.unknown_0xe0),
            unknown_0xe4: pick_present(s.unknown_0xe4, frame.unknown_0xe4),
            unknown_0xe8: pick_present(s.unknown_0xe8, frame.unknown_0xe8),
            unknown_0xec: pick_present(s.unknown_0xec, frame.unknown_0xec),
            unknown_0xf0: pick_present(s.unknown_0xf0, frame.unknown_0xf0),
            clutch: pick_present(s.clutch, frame.clutch),
            clutch_engaged: pick_present(s.clutch_engaged, frame.clutch_engaged),
            rpm_after_clutch: pick_present(s.rpm_after_clutch, frame.rpm_after_clutch),
            gear_ratio_unknown: pick_present(s.gear_ratio_unknown, frame.gear_ratio_unknown),
            gear_ratio_1: pick_present(s.gear_ratio_1, frame.gear_ratio_1),
            gear_ratio_2: pick_present(s.gear_ratio_2, frame.gear_ratio_2),
            gear_ratio_3: pick_present(s.gear_ratio_3, frame.gear_ratio_3),
            gear_ratio_4: pick_present(s.gear_ratio_4, frame.gear_ratio_4),
            gear_ratio_5: pick_present(s.gear_ratio_5, frame.gear_ratio_5),
            gear_ratio_6: pick_present(s.gear_ratio_6, frame.gear_ratio_6),
            gear_ratio_7: pick_present(s.gear_ratio_7, frame.gear_ratio_7),
            gear_ratio_8: pick_present(s.gear_ratio_8, frame.gear_ratio_8),
            packet_id: pick_present(s.packet_id, frame.packet_id),
            best_lap_ms: pick_present(s.best_lap_ms, frame.best_lap_ms),
            last_lap_ms: pick_present(s.last_lap_ms, frame.last_lap_ms),
            time_on_track_ms: pick_present(s.time_on_track_ms, frame.time_on_track_ms),
            car_id: pick_present(s.car_id, frame.car_id),
            current_lap: pick_present(s.current_lap, frame.current_lap),
            total_laps: pick_present(s.total_laps, frame.total_laps),
            current_position: pick_present(s.current_position, frame.current_position),
            total_positions: pick_present(s.total_positions, frame.total_positions),
            estimated_speed_kph: pick_present(s.estimated_speed_kph, frame.estimated_speed_kph),
            rpm_rev_warning: pick_present(s.rpm_rev_warning, frame.rpm_rev_warning),
            rpm_rev_limiter: pick_present(s.rpm_rev_limiter, frame.rpm_rev_limiter),
            flags_8e: pick_present(s.flags_8e, frame.flags_8e),
            flags_8f: pick_present(s.flags_8f, frame.flags_8f),
            flags_93: pick_present(s.flags_93, frame.flags_93),
            throttle_raw: pick_present(s.throttle_raw, frame.throttle_raw),
            brake_raw: pick_present(s.brake_raw, frame.brake_raw),
            gear: pick_present(s.gear, frame.gear),
            gear_raw: pick_present(s.gear_raw, frame.gear_raw),
            suggested_gear: pick_present(s.suggested_gear, frame.suggested_gear),
            in_race: pick_present(s.in_race, frame.in_race),
            is_paused: pick_present(s.is_paused, frame.is_paused),
            current_lap_time_ms: s.current_lap_time_ms,
            track_id: s.track_id,
        };
    }

    /// No field has ever been set.
    pub fn is_empty(&self) -> (r: bool)
        ensures
            r == (*self == empty_state()),
    {
        self.pos_x.is_none()
            && self.pos_y.is_none()
            && self.pos_z.is_none()
            && self.vel_x.is_none()
            && self.vel_y.is_none()
            && self.vel_z.is_none()
            && self.pitch.is_none()
            && self.rotation_yaw.is_none()
            && self.roll.is_none()
            && self.rotation_extra.is_none()
            && self.angular_vel_x.is_none()
            && self.angular_vel_y.is_none()
            && self.angular_vel_z.is_none()
            && self.yaw_rate.is_none()
            && self.ride_height_m.is_none()
            && self.rpm.is_none()
            && self.fuel_l.is_none()
            && self.fuel_capacity_l.is_none()
            && self.speed_ms.is_none()
            && self.boost_pressure_bar.is_none()
            && self.oil_pressure_bar.is_none()
            && self.water_temp_c.is_none()
            && self.oil_temp_c.is_none()
            && self.temp_fl_c.is_none()
            && self.temp_fr_c.is_none()
            && self.temp_rl_c.is_none()
            && self.temp_rr_c.is_none()
            && self.unknown_0x94.is_none()
            && self.unknown_0x98.is_none()
            && self.unknown_0x9c.is_none()
            && self.unknown_0xa0.is_none()
            && self.wheel_speed_fl.is_none()
            && self.wheel_speed_fr.is_none()
            && self.wheel_speed_rl.is_none()
            && self.wheel_speed_rr.is_none()
            && self.tyre_diameter_fl_m.is_none()
            && self.tyre_diameter_fr_m.is_none()
            && self.tyre_diameter_rl_m.is_none()
            && self.tyre_diameter_rr_m.is_none()
            && self.suspension_fl.is_none()
            && self.suspension_fr.is_none()
            && self.suspension_rl.is_none()
            && self.suspension_rr.is_none()
            && self.unknown_0xd4.is_none()
            && self.unknown_0xd8.is_none()
            && self.unknown_0xdc.is_none()
            && self.unknown_0xe0.is_none()
            && self.unknown_0xe4.is_none()
            && self.unknown_0xe8.is_none()
            && self.unknown_0xec.is_none()
            && self.unknown_0xf0.is_none()
            && self.clutch.is_none()
            && self.clutch_engaged.is_none()
            && self.rpm_after_clutch.is_none()
            && self.gear_ratio_unknown.is_none()
            && self.gear_ratio_1.is_none()
            && self.gear_ratio_2.is_none()
            && self.gear_ratio_3.is_none()
            && self.gear_ratio_4.is_none()
            && self.gear_ratio_5.is_none()
            && self.gear_ratio_6.is_none()
            && self.gear_ratio_7.is_none()
            && self.gear_ratio_8.is_none()
            && self.packet_id.is_none()
            && self.best_lap_ms.is_none()
            && self.last_lap_ms.is_none()
            && self.time_on_track_ms.is_none()
            && self.car_id.is_none()
            && self.current_lap.is_none()
            && self.total_laps.is_none()
            && self.current_position.is_none()
            && self.total_positions.is_none()
            && self.estimated_speed_kph.is_none()
            && self.rpm_rev_warning.is_none()
            && self.rpm_rev_limiter.is_none()
            && self.flags_8e.is_none()
            && self.flags_8f.is_none()
            && self.flags_93.is_none()
            && self.throttle_raw.is_none()
            && self.brake_raw.is_none()
            && self.gear.is_none()
            && self.gear_raw.is_none()
            && self.suggested_gear.is_none()
            && self.in_race.is_none()
            && self.is_paused.is_none()
            && self.current_lap_time_ms.is_none()
            && self.track_id.is_none()
    }
}

} // verus!
