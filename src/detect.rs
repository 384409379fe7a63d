//! Auto-detection of the console: at most one session waits for the first
//! datagram from anywhere and records its source address.
use vstd::prelude::*;
use std::collections::HashMap;
use crate::net::{IpAddress, UdpConfig, IPV4_UNSPECIFIED};

verus! {

broadcast use vstd::std_specs::hash::group_hash_axioms;

/// Time an auto-detect waits before giving up.
pub const DETECT_TIMEOUT_MS: u64 = 10_000;

#[derive(Clone, Copy, Debug, PartialEq, Eq, Structural)]
pub enum DetectStatus {
    Pending,
    Found,
    Timeout,
    Error,
    Cancelled,
}

impl DetectStatus {
    /// The status as it is written on the wire.
    pub fn as_str(&self) -> (r: &'static str)
        ensures
            r@ == (match *self {
                DetectStatus::Pending => "pending"@,
                DetectStatus::Found => "found"@,
                DetectStatus::Timeout => "timeout"@,
                DetectStatus::Error => "error"@,
                DetectStatus::Cancelled => "cancelled"@,
            }),
    {
        proof {
            reveal_strlit("pending");
            reveal_strlit("found");
            reveal_strlit("timeout");
            reveal_strlit("error");
            reveal_strlit("cancelled");
        }
        match *self {
            DetectStatus::Pending => "pending",
            DetectStatus::Found => "found",
            DetectStatus::Timeout => "timeout",
            DetectStatus::Error => "error",
            DetectStatus::Cancelled => "cancelled",
        }
    }
}

#[derive(Clone, Copy, Debug, PartialEq, Eq, Structural)]
pub struct DetectSession {
    pub id: u64,
    pub status: DetectStatus,
    pub ps5_ip: Option<IpAddress>,
    pub timeout_ms: u64,
}

#[derive(Clone, Copy, Debug, PartialEq, Eq, Structural)]
pub struct DetectEvent {
    pub id: u64,
    pub status: DetectStatus,
}

/// Asks the receiver to start listening for a session.
#[derive(Clone, Copy, Debug, PartialEq, Eq, Structural)]
pub struct DetectCommand {
    pub id: u64,
    pub timeout_ms: u64,
}

/// The receiver's side of the active session.
#[derive(Clone, Copy, Debug, PartialEq, Eq, Structural)]
pub struct DetectState {
    pub id: u64,
    /// Monotonic time at which the session times out.
    pub deadline_ms: u64,
}

/// What starting an auto-detect answers.
#[derive(Clone, Copy, Debug, PartialEq, Eq, Structural)]
pub struct DetectStartResponse {
    pub id: u64,
    pub status: DetectStatus,
    pub timeout_ms: u64,
}

/// What a status query answers.
#[derive(Clone, Copy, Debug, PartialEq, Eq, Structural)]
pub struct DetectStatusResponse {
    pub id: u64,
    pub status: DetectStatus,
    pub ps5_ip: Option<IpAddress>,
}

pub struct DetectStore {
    pub sessions: HashMap<u64, DetectSession>,
    pub active_id: Option<u64>,
    pub last_event: Option<DetectEvent>,
}

impl DetectStore {
    /// Each session is stored under its own id.
    pub open spec fn wf(&self) -> bool {
        forall|k: u64| self.sessions@.contains_key(k) ==> #[trigger] self.sessions@[k].id == k
    }

    pub fn new() -> (r: DetectStore)
        ensures
            r.wf(),
            r.sessions@ == Map::<u64, DetectSession>::empty(),
            r.active_id is None,
            r.last_event is None,
    {
        DetectStore { sessions: HashMap::new(), active_id: None, last_event: None }
    }

    /// The active session, if its record exists.
    pub open spec fn spec_active(&self) -> Option<DetectSession> {
        match self.active_id {
            Some(a) => if self.sessions@.contains_key(a) {
                Some(self.sessions@[a])
            } else {
                None
            },
            None => None,
        }
    }

    pub fn active_session(&self) -> (r: Option<DetectSession>)
        ensures
            r == self.spec_active(),
    {
        match self.active_id {
            Some(a) => match self.sessions.get(&a) {
                Some(s) => Some(*s),
                None => None,
            },
            None => None,
        }
    }

    /// An auto-detect is waiting for a datagram.
    pub fn is_pending(&self) -> (r: bool)
        ensures
            r == (self.spec_active() is Some && self.spec_active().unwrap().status
                == DetectStatus::Pending),
    {
        match self.active_session() {
            Some(s) => s.status == DetectStatus::Pending,
            None => false,
        }
    }

    /// Starts an auto-detect, or returns the active one unchanged. A new
    /// session takes the next value of `sequence` as its id.
    pub fn start(&mut self, sequence: &mut u64) -> (r: DetectStartResponse)
        requires
            old(self).wf(),
            *old(sequence) < u64::MAX,
        ensures
            final(self).wf(),
            match old(self).spec_active() {
                Some(s) => {
                    &&& r.id == old(self).active_id.unwrap()
                    &&& r == (DetectStartResponse {
                        id: s.id,
                        status: s.status,
                        timeout_ms: s.timeout_ms,
                    })
                    &&& final(self).sessions@ == old(self).sessions@
                    &&& final(self).active_id == old(self).active_id
                    &&& final(self).last_event == old(self).last_event
                    &&& *final(sequence) == *old(sequence)
                },
                None => {
                    let id = (*old(sequence) + 1) as u64;
                    let s = DetectSession {
                        id: id,
                        status: DetectStatus::Pending,
                        ps5_ip: None,
                        timeout_ms: DETECT_TIMEOUT_MS,
                    };
                    &&& *final(sequence) == id
                    &&& r == (DetectStartResponse {
                        id: id,
                        status: DetectStatus::Pending,
                        timeout_ms: DETECT_TIMEOUT_MS,
                    })
                    &&& final(self).sessions@ == old(self).sessions@.insert(id, s)
                    &&& final(self).active_id == Some(id)
                    &&& final(self).last_event == Some(
                        DetectEvent { id: id, status: DetectStatus::Pending },
                    )
                },
            },
    {
        if let Some(s) = self.active_session() {
            return DetectStartResponse { id: s.id, status: s.status, timeout_ms: s.timeout_ms };
        }
        let id = next_sequence(sequence);
        let session = DetectSession {
            id,
            status: DetectStatus::Pending,
            ps5_ip: None,
            timeout_ms: DETECT_TIMEOUT_MS,
        };
        self.sessions.insert(id, session);
        self.active_id = Some(id);
        self.last_event = Some(DetectEvent { id, status: DetectStatus::Pending });
        DetectStartResponse { id, status: DetectStatus::Pending, timeout_ms: DETECT_TIMEOUT_MS }
    }

    /// Ends session `id` with a terminal `status` and no address, and clears
    /// the active id.
    pub fn finish(&mut self, id: u64, status: DetectStatus)
        requires
            old(self).wf(),
        ensures
            final(self).wf(),
            final(self).active_id is None,
            old(self).sessions@.contains_key(id) ==> {
                &&& final(self).sessions@ == old(self).sessions@.insert(
                    id,
                    DetectSession { status: status, ps5_ip: None, ..old(self).sessions@[id] },
                )
                &&& final(self).last_event == Some(DetectEvent { id: id, status: status })
            },
            !old(self).sessions@.contains_key(id) ==> {
                &&& final(self).sessions@ == old(self).sessions@
                &&& final(self).last_event == old(self).last_event
            },
    {
        match self.sessions.get(&id) {
            Some(s) => {
                let updated = DetectSession { status, ps5_ip: None, ..*s };
                self.sessions.insert(id, updated);
                self.last_event = Some(DetectEvent { id, status });
            },
            None => {},
        }
        self.active_id = None;
    }

    /// Cancels the active session; returns its id, or `None` when none was
    /// active.
    pub fn cancel(&mut self) -> (r: Option<u64>)
        requires
            old(self).wf(),
        ensures
            final(self).wf(),
            r == old(self).active_id,
            final(self).active_id is None,
            match old(self).active_id {
                Some(a) => if old(self).sessions@.contains_key(a) {
                    &&& final(self).sessions@ == old(self).sessions@.insert(
                        a,
                        DetectSession {
                            status: DetectStatus::Cancelled,
                            ps5_ip: None,
                            ..old(self).sessions@[a]
                        },
                    )
                    &&& final(self).last_event == Some(
                        DetectEvent { id: a, status: DetectStatus::Cancelled },
                    )
                } else {
                    &&& final(self).sessions@ == old(self).sessions@
                    &&& final(self).last_event == old(self).last_event
                },
                None => {
                    &&& final(self).sessions@ == old(self).sessions@
                    &&& final(self).last_event == old(self).last_event
                },
            },
    {
        match self.active_id {
            Some(a) => {
                self.finish(a, DetectStatus::Cancelled);
                Some(a)
            },
            None => None,
        }
    }

    /// A new configuration that names the console cancels any auto-detect.
    pub fn apply_config(&mut self, config: &UdpConfig)
        requires
            old(self).wf(),
        ensures
            final(self).wf(),
            config.ps5_ip is Some ==> final(self).active_id is None,
            config.ps5_ip is None ==> final(self).sessions@ == old(self).sessions@
                && final(self).active_id == old(self).active_id && final(self).last_event
                == old(self).last_event,
            config.ps5_ip is Some && old(self).active_id is Some && old(
                self,
            ).sessions@.contains_key(old(self).active_id.unwrap()) ==> final(self).sessions@[old(
                self,
            ).active_id.unwrap()].status == DetectStatus::Cancelled,
    {
        if config.ps5_ip.is_some() {
            let _ = self.cancel();
        }
    }

    /// Status of session `id`; an unknown id reads as `Error`.
    pub fn status_of(&self, id: u64) -> (r: DetectStatusResponse)
        ensures
            self.sessions@.contains_key(id) ==> r == (DetectStatusResponse {
                id: self.sessions@[id].id,
                status: self.sessions@[id].status,
                ps5_ip: self.sessions@[id].ps5_ip,
            }),
            !self.sessions@.contains_key(id) ==> r == (DetectStatusResponse {
                id: id,
                status: DetectStatus::Error,
                ps5_ip: None,
            }),
    {
        match self.sessions.get(&id) {
            Some(s) => DetectStatusResponse { id: s.id, status: s.status, ps5_ip: s.ps5_ip },
            None => DetectStatusResponse { id, status: DetectStatus::Error, ps5_ip: None },
        }
    }

    /// A datagram from `source` arrived while session `id` listened: a
    /// pending session is found at that address. The active id is cleared
    /// either way. Returns whether the session was found.
    pub fn datagram_seen(&mut self, id: u64, source: IpAddress) -> (r: bool)
        requires
            old(self).wf(),
        ensures
            final(self).wf(),
            final(self).active_id is None,
            r == (old(self).sessions@.contains_key(id) && old(self).sessions@[id].status
                == DetectStatus::Pending),
            r ==> final(self).sessions@ == old(self).sessions@.insert(
                id,
                DetectSession {
                    status: DetectStatus::Found,
                    ps5_ip: Some(source),
                    ..old(self).sessions@[id]
                },
            ) && final(self).last_event == Some(DetectEvent { id: id, status: DetectStatus::Found }),
            !r ==> final(self).sessions@ == old(self).sessions@ && final(self).last_event == old(
                self,
            ).last_event,
    {
        let mut found = false;
        match self.sessions.get(&id) {
            Some(s) => {
                if s.status == DetectStatus::Pending {
                    let updated = DetectSession {
                        status: DetectStatus::Found,
                        ps5_ip: Some(source),
                        ..*s
                    };
                    self.sessions.insert(id, updated);
                    self.last_event = Some(DetectEvent { id, status: DetectStatus::Found });
                    found = true;
                }
            },
            None => {},
        }
        self.active_id = None;
        found
    }
}

/// The configuration once the console is found at `ip`: it is named, and a
/// loopback listener widens to every interface.
pub fn config_after_found(config: &UdpConfig, ip: IpAddress) -> (r: UdpConfig)
    ensures
        r.ps5_ip == Some(ip),
        r.bind_addr == (if config.bind_addr.spec_is_loopback() {
            IpAddress::V4(IPV4_UNSPECIFIED)
        } else {
            config.bind_addr
        }),
{
    let bind_addr = if config.bind_addr.is_loopback() {
        IpAddress::V4(IPV4_UNSPECIFIED)
    } else {
        config.bind_addr
    };
    UdpConfig { bind_addr, ps5_ip: Some(ip) }
}

/// Whether a datagram from `source` is taken when no auto-detect listens:
/// once the console is named, only its datagrams are.
pub fn accepts_source(config: &UdpConfig, source: IpAddress) -> (r: bool)
    ensures
        r == (match config.ps5_ip {
            Some(p) => p == source,
            None => true,
        }),
{
    match config.ps5_ip {
        Some(p) => p == source,
        None => true,
    }
}

/// What the receiver does on its periodic detect check.
#[derive(Clone, Copy, Debug, PartialEq, Eq, Structural)]
pub enum DetectTick {
    /// Nothing to do.
    Wait,
    /// The session was ended elsewhere: drop it and listen as configured.
    Dropped,
    /// The deadline passed: time the session out and listen as configured.
    TimedOut,
}

/// The periodic check of the receiver's session against the store.
pub fn detect_tick(store_active_id: Option<u64>, state: &DetectState, now_ms: u64) -> (r:
    DetectTick)
    ensures
        r == (if store_active_id != Some(state.id) {
            DetectTick::Dropped
        } else if now_ms >= state.deadline_ms {
            DetectTick::TimedOut
        } else {
            DetectTick::Wait
        }),
{
    if store_active_id != Some(state.id) {
        DetectTick::Dropped
    } else if now_ms >= state.deadline_ms {
        DetectTick::TimedOut
    } else {
        DetectTick::Wait
    }
}

/// The deadline of a session started at `now_ms`.
pub fn detect_deadline(now_ms: u64, timeout_ms: u64) -> (r: u64)
    ensures
        r == (if now_ms + timeout_ms <= u64::MAX { (now_ms + timeout_ms) as u64 } else { u64::MAX }),
{
    now_ms.saturating_add(timeout_ms)
}

/// Draws the next value of a process-wide counter: one more than the last.
pub fn next_sequence(sequence: &mut u64) -> (r: u64)
    requires
        *old(sequence) < u64::MAX,
    ensures
        r == *old(sequence) + 1,
        *final(sequence) == r,
{
    *sequence = *sequence + 1;
    *sequence
}

/// Whether a rate-limited action may run again: `interval_ms` or more after
/// the last time it ran.
pub fn rate_limit_due(now_ms: u64, last_ms: u64, interval_ms: u64) -> (r: bool)
    ensures
        r == (now_ms >= last_ms && now_ms - last_ms >= interval_ms) || (now_ms < last_ms
            && interval_ms == 0),
{
    now_ms.saturating_sub(last_ms) >= interval_ms
}

} // verus!
