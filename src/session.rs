//! Session tracking: the race state machine, the lap timer that leaves out
//! pauses, and the bookkeeping of lap changes.
use vstd::prelude::*;
use crate::frame::TelemetryFrame;
use crate::state::{empty_state, merged, State};

verus! {

#[derive(Clone, Copy, Debug, PartialEq, Eq, Structural)]
pub enum SessionState {
    NotInRace,
    InRace,
    Paused,
}

#[derive(Clone, Copy, Debug, PartialEq, Eq, Structural)]
pub struct SessionTransition {
    pub from: SessionState,
    pub to: SessionState,
}

/// What applying one frame asks of the caller.
#[derive(Clone, Copy, Debug, PartialEq, Eq, Structural)]
pub struct SessionEvents {
    pub transition: Option<SessionTransition>,
    pub should_stop_record: bool,
    pub should_start_record: bool,
    /// The frame carried a lap number different from the previous one, or the
    /// first lap number of the session.
    pub lap_changed: bool,
    /// The lap number changed from a known lap whose recorded lap time is
    /// positive: a complete lap has just ended.
    pub lap_completed: bool,
}

/// The largest lap time that can be reported.
pub const LAP_TIME_MAX_MS: u64 = 0x7FFF_FFFF;

pub open spec fn spec_next_session_state(current: SessionState, f: TelemetryFrame) -> SessionState {
    match (f.in_race, f.is_paused) {
        (Some(in_race), Some(is_paused)) => {
            if !in_race {
                SessionState::NotInRace
            } else if is_paused {
                SessionState::Paused
            } else {
                SessionState::InRace
            }
        },
        _ => current,
    }
}

/// The state a frame leads to; with either flag absent the state stays.
pub fn next_session_state(current: SessionState, frame: &TelemetryFrame) -> (r: SessionState)
    ensures
        r == spec_next_session_state(current, *frame),
{
    match (frame.in_race, frame.is_paused) {
        (Some(in_race), Some(is_paused)) => {
            if !in_race {
                SessionState::NotInRace
            } else if is_paused {
                SessionState::Paused
            } else {
                SessionState::InRace
            }
        },
        _ => current,
    }
}

#[derive(Clone, Copy, Debug)]
pub struct SessionTracker {
    pub state: State,
    pub session_state: SessionState,
    pub session_index: u64,
    pub last_current_lap: Option<i16>,
    pub last_lap_time_ms_recorded: Option<i32>,
    /// Monotonic time at which the current lap started.
    pub lap_start_mono_ms: Option<u64>,
    /// Monotonic time at which the pause in progress began.
    pub lap_pause_started_ms: Option<u64>,
    /// Time spent paused during the current lap, pauses that ended only.
    pub lap_pause_accum_ms: u64,
    pub car_id: Option<i32>,
    pub track_id: Option<i32>,
}

pub open spec fn sat_sub(a: u64, b: u64) -> u64 {
    if a >= b { (a - b) as u64 } else { 0 }
}

pub open spec fn sat_add(a: u64, b: u64) -> u64 {
    if a + b <= u64::MAX { (a + b) as u64 } else { u64::MAX }
}

pub open spec fn entering_race(prev: SessionState, next: SessionState) -> bool {
    prev == SessionState::NotInRace && next == SessionState::InRace
}

/// The tracker right after switching from its state to `next`.
pub open spec fn after_transition(t: SessionTracker, next: SessionState, now: u64) -> SessionTracker {
    if next == t.session_state {
        t
    } else if entering_race(t.session_state, next) {
        SessionTracker {
            session_state: next,
            session_index: sat_add(t.session_index, 1),
            last_current_lap: None,
            last_lap_time_ms_recorded: None,
            lap_start_mono_ms: Some(now),
            lap_pause_started_ms: None,
            lap_pause_accum_ms: 0,
            track_id: None,
            ..t
        }
    } else if next == SessionState::NotInRace {
        SessionTracker {
            session_state: next,
            track_id: None,
            lap_start_mono_ms: None,
            lap_pause_started_ms: None,
            lap_pause_accum_ms: 0,
            state: State { current_lap_time_ms: None, ..t.state },
            ..t
        }
    } else {
        SessionTracker { session_state: next, ..t }
    }
}

/// A new value of the last lap time restarts the lap clock, unless out of race.
pub open spec fn after_last_lap(t: SessionTracker, f: TelemetryFrame, now: u64) -> SessionTracker {
    if f.last_lap_ms is Some && t.last_lap_time_ms_recorded != f.last_lap_ms {
        if t.session_state != SessionState::NotInRace {
            SessionTracker {
                last_lap_time_ms_recorded: f.last_lap_ms,
                lap_start_mono_ms: Some(now),
                lap_pause_started_ms: None,
                lap_pause_accum_ms: 0,
                ..t
            }
        } else {
            SessionTracker { last_lap_time_ms_recorded: f.last_lap_ms, ..t }
        }
    } else {
        t
    }
}

/// In race, the lap clock runs from now if it was not running.
pub open spec fn after_anchor(t: SessionTracker, now: u64) -> SessionTracker {
    if t.session_state == SessionState::InRace && t.lap_start_mono_ms is None {
        SessionTracker { lap_start_mono_ms: Some(now), ..t }
    } else {
        t
    }
}

/// Pause accounting: a pause starts when paused, and its length is added up
/// when the race resumes.
pub open spec fn after_pause(t: SessionTracker, now: u64) -> SessionTracker {
    match t.session_state {
        SessionState::Paused => {
            if t.lap_pause_started_ms is None {
                SessionTracker { lap_pause_started_ms: Some(now), ..t }
            } else {
                t
            }
        },
        SessionState::InRace => {
            match t.lap_pause_started_ms {
                Some(p) => SessionTracker {
                    lap_pause_started_ms: None,
                    lap_pause_accum_ms: sat_add(t.lap_pause_accum_ms, sat_sub(now, p)),
                    ..t
                },
                None => t,
            }
        },
        SessionState::NotInRace => SessionTracker {
            lap_pause_started_ms: None,
            lap_pause_accum_ms: 0,
            ..t
        },
    }
}

/// Time into the lap at `now`: since the lap start, less the pauses that
/// ended and the pause in progress, saturating at 0 and at `i32::MAX`.
pub open spec fn lap_time_at(t: SessionTracker, now: u64) -> Option<i32> {
    match t.lap_start_mono_ms {
        Some(start) => {
            let e1 = sat_sub(sat_sub(now, start), t.lap_pause_accum_ms);
            let e2 = match t.lap_pause_started_ms {
                Some(p) => sat_sub(e1, sat_sub(now, p)),
                None => e1,
            };
            Some((if e2 > LAP_TIME_MAX_MS { LAP_TIME_MAX_MS } else { e2 }) as i32)
        },
        None => None,
    }
}

pub open spec fn spec_lap_changed(t: SessionTracker, f: TelemetryFrame) -> bool {
    f.current_lap is Some && (t.last_current_lap is None || t.last_current_lap != f.current_lap)
}

pub open spec fn spec_lap_completed(t: SessionTracker, f: TelemetryFrame) -> bool {
    &&& spec_lap_changed(t, f)
    &&& t.last_current_lap is Some
    &&& t.last_lap_time_ms_recorded is Some
    &&& t.last_lap_time_ms_recorded.unwrap() > 0
}

/// Identity and dynamics: the car id is kept when the packet has none, and
/// position, velocity and yaw follow the frame even where it has none.
pub open spec fn after_identity(
    t: SessionTracker,
    f: TelemetryFrame,
    packet_car_id: Option<i32>,
) -> SessionTracker {
    let car_id = if packet_car_id is Some { packet_car_id } else { t.car_id };
    SessionTracker {
        car_id: car_id,
        state: State {
            car_id: car_id,
            track_id: t.track_id,
            pos_x: f.pos_x,
            pos_y: f.pos_y,
            pos_z: f.pos_z,
            vel_x: f.vel_x,
            vel_y: f.vel_y,
            vel_z: f.vel_z,
            rotation_yaw: f.rotation_yaw,
            ..t.state
        },
        ..t
    }
}

/// The tracker after one frame at monotonic time `now`.
pub open spec fn tracker_step(
    t: SessionTracker,
    f: TelemetryFrame,
    now: u64,
    packet_car_id: Option<i32>,
) -> SessionTracker {
    let t1 = after_transition(t, spec_next_session_state(t.session_state, f), now);
    let t2 = SessionTracker { state: merged(t1.state, f), ..t1 };
    let t3 = after_pause(after_anchor(after_last_lap(t2, f, now), now), now);
    let t4 = SessionTracker {
        state: State { current_lap_time_ms: lap_time_at(t3, now), ..t3.state },
        last_current_lap: if f.current_lap is Some { f.current_lap } else { t3.last_current_lap },
        ..t3
    };
    after_identity(t4, f, packet_car_id)
}

/// What one frame reports to the caller.
pub open spec fn step_events(t: SessionTracker, f: TelemetryFrame, now: u64) -> SessionEvents {
    let next = spec_next_session_state(t.session_state, f);
    let t1 = after_transition(t, next, now);
    let t3 = after_pause(
        after_anchor(after_last_lap(SessionTracker { state: merged(t1.state, f), ..t1 }, f, now), now),
        now,
    );
    SessionEvents {
        transition: if next != t.session_state {
            Some(SessionTransition { from: t.session_state, to: next })
        } else {
            None
        },
        should_stop_record: next == SessionState::NotInRace,
        should_start_record: next == SessionState::InRace,
        lap_changed: spec_lap_changed(t3, f),
        lap_completed: spec_lap_completed(t3, f),
    }
}

pub open spec fn fresh_tracker() -> SessionTracker {
    SessionTracker {
        state: empty_state(),
        session_state: SessionState::NotInRace,
        session_index: 0,
        last_current_lap: None,
        last_lap_time_ms_recorded: None,
        lap_start_mono_ms: None,
        lap_pause_started_ms: None,
        lap_pause_accum_ms: 0,
        car_id: None,
        track_id: None,
    }
}

/// While in race, with no pause and no new last-lap time, the reported lap
/// time does not decrease from one frame to the next.
pub proof fn lemma_lap_time_monotonic(
    t: SessionTracker,
    f1: TelemetryFrame,
    f2: TelemetryFrame,
    now1: u64,
    now2: u64,
    car1: Option<i32>,
    car2: Option<i32>,
)
    requires
        t.session_state == SessionState::InRace,
        t.lap_pause_started_ms is None,
        spec_next_session_state(SessionState::InRace, f1) == SessionState::InRace,
        spec_next_session_state(SessionState::InRace, f2) == SessionState::InRace,
        f1.last_lap_ms is None || f1.last_lap_ms == t.last_lap_time_ms_recorded,
        f2.last_lap_ms is None || f2.last_lap_ms == t.last_lap_time_ms_recorded,
        now1 <= now2,
    ensures
        ({
            let t1 = tracker_step(t, f1, now1, car1);
            let t2 = tracker_step(t1, f2, now2, car2);
            &&& t1.state.current_lap_time_ms is Some
            &&& t2.state.current_lap_time_ms is Some
            &&& t1.state.current_lap_time_ms.unwrap() <= t2.state.current_lap_time_ms.unwrap()
        }),
{
}

/// The session index never goes down, and a frame raises it only on entering
/// a race from out of race, by exactly one (saturating at `u64::MAX`).
pub proof fn lemma_session_index_step(
    t: SessionTracker,
    f: TelemetryFrame,
    now: u64,
    packet_car_id: Option<i32>,
)
    ensures
        ({
            let t2 = tracker_step(t, f, now, packet_car_id);
            &&& t2.session_index >= t.session_index
            &&& t2.session_index != t.session_index ==> entering_race(
                t.session_state,
                t2.session_state,
            )
            &&& entering_race(t.session_state, t2.session_state) && t.session_index < u64::MAX
                ==> t2.session_index == t.session_index + 1
        }),
{
}

impl SessionTracker {
    pub fn new() -> (r: SessionTracker)
        ensures
            r == fresh_tracker(),
    {
        SessionTracker {
            state: State::new(),
            session_state: SessionState::NotInRace,
            session_index: 0,
            last_current_lap: None,
            last_lap_time_ms_recorded: None,
            lap_start_mono_ms: None,
            lap_pause_started_ms: None,
            lap_pause_accum_ms: 0,
            car_id: None,
            track_id: None,
        }
    }

    /// Starts over for a replay: everything is cleared but the session index,
    /// which rises only on entering a race.
    pub fn reset_for_demo(&mut self)
        ensures
            *final(self) == (SessionTracker {
                session_index: old(self).session_index,
                ..fresh_tracker()
            }),
    {
        let idx = self.session_index;
        *self = SessionTracker::new();
        self.session_index = idx;
    }

    pub fn set_track_id(&mut self, track_id: Option<i32>)
        ensures
            *final(self) == (SessionTracker {
                track_id: track_id,
                state: State { track_id: track_id, ..old(self).state },
                ..*old(self)
            }),
    {
        self.track_id = track_id;
        self.state.track_id = track_id;
    }

    pub fn set_car_id(&mut self, car_id: Option<i32>)
        ensures
            *final(self) == (SessionTracker {
                car_id: car_id,
                state: State { car_id: car_id, ..old(self).state },
                ..*old(self)
            }),
    {
        self.car_id = car_id;
        self.state.car_id = car_id;
    }

    fn apply_transition(&mut self, next: SessionState, now_ms: u64)
        ensures
            *final(self) == after_transition(*old(self), next, now_ms),
    {
        if next != self.session_state {
            if next == SessionState::InRace && self.session_state == SessionState::NotInRace {
                self.session_index = self.session_index.saturating_add(1);
                self.last_current_lap = None;
                self.last_lap_time_ms_recorded = None;
                self.lap_start_mono_ms = Some(now_ms);
                self.lap_pause_started_ms = None;
                self.lap_pause_accum_ms = 0;
                self.track_id = None;
            } else if next == SessionState::NotInRace {
                self.track_id = None;
                self.lap_start_mono_ms = None;
                self.lap_pause_started_ms = None;
                self.lap_pause_accum_ms = 0;
                self.state.current_lap_time_ms = None;
            }
            self.session_state = next;
        }
    }

    fn apply_last_lap(&mut self, frame: &TelemetryFrame, now_ms: u64)
        ensures
            *final(self) == after_last_lap(*old(self), *frame, now_ms),
    {
        if let Some(last_lap_ms) = frame.last_lap_ms {
            if self.last_lap_time_ms_recorded != Some(last_lap_ms) {
                self.last_lap_time_ms_recorded = Some(last_lap_ms);
                if self.session_state != SessionState::NotInRace {
                    self.lap_start_mono_ms = Some(now_ms);
                    self.lap_pause_started_ms = None;
                    self.lap_pause_accum_ms = 0;
                }
            }
        }
    }

    fn apply_pause(&mut self, now_ms: u64)
        ensures
            *final(self) == after_pause(*old(self), now_ms),
    {
        match self.session_state {
            SessionState::Paused => {
                if self.lap_pause_started_ms.is_none() {
                    self.lap_pause_started_ms = Some(now_ms);
                }
            },
            SessionState::InRace => {
                if let Some(pause_start) = self.lap_pause_started_ms {
                    self.lap_pause_started_ms = None;
                    self.lap_pause_accum_ms = self.lap_pause_accum_ms.saturating_add(
                        now_ms.saturating_sub(pause_start),
                    );
                }
            },
            SessionState::NotInRace => {
                self.lap_pause_started_ms = None;
                self.lap_pause_accum_ms = 0;
            },
        }
    }

    /// Time into the current lap at `now_ms`, pauses excluded.
    pub fn lap_time(&self, now_ms: u64) -> (r: Option<i32>)
        ensures
            r == lap_time_at(*self, now_ms),
    {
        match self.lap_start_mono_ms {
            Some(lap_start) => {
                let mut elapsed = now_ms.saturating_sub(lap_start);
                elapsed = elapsed.saturating_sub(self.lap_pause_accum_ms);
                if let Some(pause_start) = self.lap_pause_started_ms {
                    elapsed = elapsed.saturating_sub(now_ms.saturating_sub(pause_start));
                }
                let safe = if elapsed > LAP_TIME_MAX_MS { LAP_TIME_MAX_MS } else { elapsed };
                Some(safe as i32)
            },
            None => None,
        }
    }

    /// Applies one frame received at monotonic time `now_ms`, with the car id
    /// read from the same packet.
    pub fn apply_frame(
        &mut self,
        frame: &TelemetryFrame,
        now_ms: u64,
        packet_car_id: Option<i32>,
    ) -> (r: SessionEvents)
        ensures
            *final(self) == tracker_step(*old(self), *frame, now_ms, packet_car_id),
            r == step_events(*old(self), *frame, now_ms),
    {
        let previous_state = self.session_state;
        let next_state = next_session_state(previous_state, frame);
        let transition = if next_state != previous_state {
            Some(SessionTransition { from: previous_state, to: next_state })
        } else {
            None
        };
        self.apply_transition(next_state, now_ms);
        self.state.update_from(frame);
        self.apply_last_lap(frame, now_ms);
        if self.session_state == SessionState::InRace && self.lap_start_mono_ms.is_none() {
            self.lap_start_mono_ms = Some(now_ms);
        }
        self.apply_pause(now_ms);
        self.state.current_lap_time_ms = self.lap_time(now_ms);

        let mut lap_changed = false;
        let mut lap_completed = false;
        if let Some(current_lap) = frame.current_lap {
            lap_changed = match self.last_current_lap {
                Some(prev) => prev != current_lap,
                None => true,
            };
            if lap_changed && self.last_current_lap.is_some() {
                lap_completed = match self.last_lap_time_ms_recorded {
                    Some(t) => t > 0,
                    None => false,
                };
            }
            self.last_current_lap = Some(current_lap);
        }

        if let Some(car_id) = packet_car_id {
            self.car_id = Some(car_id);
        }
        self.state.car_id = self.car_id;
        self.state.track_id = self.track_id;
        self.state.pos_x = frame.pos_x;
        self.state.pos_y = frame.pos_y;
        self.state.pos_z = frame.pos_z;
        self.state.vel_x = frame.vel_x;
        self.state.vel_y = frame.vel_y;
        self.state.vel_z = frame.vel_z;
        self.state.rotation_yaw = frame.rotation_yaw;

        SessionEvents {
            transition,
            should_stop_record: next_state == SessionState::NotInRace,
            should_start_record: next_state == SessionState::InRace,
            lap_changed,
            lap_completed,
        }
    }
}

impl Default for SessionTracker {
    fn default() -> (r: SessionTracker)
        ensures
            r == fresh_tracker(),
    {
        SessionTracker::new()
    }
}

} // verus!
