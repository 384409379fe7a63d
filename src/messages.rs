//! The plain content of the messages sent to subscribers and of the session
//! part of the debug view. Their wire form is written elsewhere.
use vstd::prelude::*;
use crate::state::State;

verus! {

/// Version of the message schema.
pub const SCHEMA_VERSION: &'static str = "1.0";

/// Greeting sent when a subscriber connects.
pub struct HandshakeHello {
    pub schema_version: &'static str,
    pub timestamp_ms: u64,
    pub monotonic_ms: u64,
    pub sequence: u64,
    pub message_type: &'static str,
    pub server_version: &'static str,
    pub capabilities: Vec<&'static str>,
}

impl HandshakeHello {
    /// The greeting: schema 1.0, type `handshake_hello`, offering state
    /// updates and sample windows.
    pub fn new(timestamp_ms: u64, monotonic_ms: u64, sequence: u64, server_version: &'static str) -> (r:
        HandshakeHello)
        ensures
            r.schema_version@ == "1.0"@,
            r.message_type@ == "handshake_hello"@,
            r.timestamp_ms == timestamp_ms,
            r.monotonic_ms == monotonic_ms,
            r.sequence == sequence,
            r.server_version == server_version,
            r.capabilities@.len() == 2,
            r.capabilities@[0]@ == "state_update"@,
            r.capabilities@[1]@ == "samples_window"@,
    {
        proof {
            reveal_strlit("1.0");
            reveal_strlit("handshake_hello");
            reveal_strlit("state_update");
            reveal_strlit("samples_window");
        }
        let mut capabilities: Vec<&'static str> = Vec::new();
        capabilities.push("state_update");
        capabilities.push("samples_window");
        HandshakeHello {
            schema_version: SCHEMA_VERSION,
            timestamp_ms,
            monotonic_ms,
            sequence,
            message_type: "handshake_hello",
            server_version,
            capabilities,
        }
    }
}

/// Session fields of the debug view.
#[derive(Clone, Copy, Debug, PartialEq, Eq, Structural)]
pub struct DebugSession {
    pub in_race: Option<bool>,
    pub is_paused: Option<bool>,
    pub packet_id: Option<i32>,
    pub time_on_track_ms: Option<i32>,
    pub current_lap: Option<i16>,
    pub total_laps: Option<i16>,
    pub best_lap_ms: Option<i32>,
    pub last_lap_ms: Option<i32>,
    pub current_position: Option<i16>,
    pub total_positions: Option<i16>,
    pub car_id: Option<i32>,
    pub track_id: Option<i32>,
}

impl DebugSession {
    pub fn from_state(s: &State) -> (r: DebugSession)
        ensures
            r == (DebugSession {
                in_race: s.in_race,
                is_paused: s.is_paused,
                packet_id: s.packet_id,
                time_on_track_ms: s.time_on_track_ms,
                current_lap: s.current_lap,
                total_laps: s.total_laps,
                best_lap_ms: s.best_lap_ms,
                last_lap_ms: s.last_lap_ms,
                current_position: s.current_position,
                total_positions: s.total_positions,
                car_id: s.car_id,
                track_id: s.track_id,
            }),
    {
        DebugSession {
            in_race: s.in_race,
            is_paused: s.is_paused,
            packet_id: s.packet_id,
            time_on_track_ms: s.time_on_track_ms,
            current_lap: s.current_lap,
            total_laps: s.total_laps,
            best_lap_ms: s.best_lap_ms,
            last_lap_ms: s.last_lap_ms,
            current_position: s.current_position,
            total_positions: s.total_positions,
            car_id: s.car_id,
            track_id: s.track_id,
        }
    }
}

} // verus!
