//! Addresses and the choice of heartbeat mode.
use vstd::prelude::*;

verus! {

/// An IP address as plain numbers: an IPv4 address as its 32-bit big-endian
/// value, an IPv6 address as its 128-bit value.
#[derive(Clone, Copy, Debug, PartialEq, Eq, Structural)]
pub enum IpAddress {
    V4(u32),
    V6(u128),
}

/// 127.0.0.1
pub const IPV4_LOOPBACK: u32 = 0x7F00_0001;

/// 0.0.0.0
pub const IPV4_UNSPECIFIED: u32 = 0;

impl IpAddress {
    pub open spec fn spec_is_loopback(&self) -> bool {
        match *self {
            IpAddress::V4(v) => v / 0x100_0000 == 127,
            IpAddress::V6(v) => v == 1,
        }
    }

    pub open spec fn spec_is_unspecified(&self) -> bool {
        match *self {
            IpAddress::V4(v) => v == 0,
            IpAddress::V6(v) => v == 0,
        }
    }

    /// Loopback: 127.0.0.0/8 or ::1.
    pub fn is_loopback(&self) -> (r: bool)
        ensures
            r == self.spec_is_loopback(),
    {
        match *self {
            IpAddress::V4(v) => v / 0x100_0000 == 127,
            IpAddress::V6(v) => v == 1,
        }
    }

    /// The unspecified address of either family.
    pub fn is_unspecified(&self) -> (r: bool)
        ensures
            r == self.spec_is_unspecified(),
    {
        match *self {
            IpAddress::V4(v) => v == 0,
            IpAddress::V6(v) => v == 0,
        }
    }
}

pub open spec fn spec_is_private_ipv4(v: u32) -> bool {
    let a = v / 0x100_0000;
    let b = (v / 0x1_0000) % 256;
    a == 10 || (a == 172 && 16 <= b <= 31) || (a == 192 && b == 168)
}

/// Private IPv4 ranges: 10/8, 172.16/12 and 192.168/16.
pub fn is_private_ipv4(v: u32) -> (r: bool)
    ensures
        r == spec_is_private_ipv4(v),
{
    let a = v / 0x100_0000;
    let b = (v / 0x1_0000) % 256;
    a == 10 || (a == 172 && 16 <= b && b <= 31) || (a == 192 && b == 168)
}

/// Picks the first private IPv4 address among the interface addresses.
/// Private addresses are never loopback nor link-local.
pub fn preferred_private_ipv4(addrs: &Vec<u32>) -> (r: Option<u32>)
    ensures
        match r {
            Some(v) => exists|i: int|
                0 <= i < addrs@.len() && addrs@[i] == v && spec_is_private_ipv4(v) && forall|j: int|
                    0 <= j < i ==> !spec_is_private_ipv4(#[trigger] addrs@[j]),
            None => forall|j: int| 0 <= j < addrs@.len() ==> !spec_is_private_ipv4(#[trigger] addrs@[j]),
        },
{
    let mut i: usize = 0;
    while i < addrs.len()
        invariant
            i <= addrs@.len(),
            forall|j: int| 0 <= j < i ==> !spec_is_private_ipv4(#[trigger] addrs@[j]),
        decreases addrs@.len() - i,
    {
        let v = addrs[i];
        if is_private_ipv4(v) {
            return Some(v);
        }
        i = i + 1;
    }
    None
}

pub open spec fn spec_fallback_local_ip(
    config: UdpConfig,
    preferred: Option<u32>,
    route_hint: Option<IpAddress>,
) -> Option<IpAddress> {
    match config.bind_addr {
        IpAddress::V4(a) if !config.bind_addr.spec_is_loopback()
            && !config.bind_addr.spec_is_unspecified() => Some(IpAddress::V4(a)),
        _ => match preferred {
            Some(v) => Some(IpAddress::V4(v)),
            None => route_hint,
        },
    }
}

/// Local address to send heartbeats from when no route hint for the target
/// is known: the configured IPv4 bind address if it is a real one, else the
/// preferred private address, else the address of the default route.
pub fn fallback_local_ip(
    config: &UdpConfig,
    preferred: Option<u32>,
    route_hint: Option<IpAddress>,
) -> (r: Option<IpAddress>)
    ensures
        r == spec_fallback_local_ip(*config, preferred, route_hint),
{
    match config.bind_addr {
        IpAddress::V4(a) => {
            if !config.bind_addr.is_loopback() && !config.bind_addr.is_unspecified() {
                return Some(IpAddress::V4(a));
            }
        },
        IpAddress::V6(_) => {},
    }
    match preferred {
        Some(v) => Some(IpAddress::V4(v)),
        None => route_hint,
    }
}

/// Local address for broadcast heartbeats: only while an auto-detect waits.
pub fn resolve_broadcast_bind_ip(
    config: &UdpConfig,
    pending_detect: bool,
    preferred: Option<u32>,
    route_hint: Option<IpAddress>,
) -> (r: Option<IpAddress>)
    ensures
        r == (if pending_detect {
            spec_fallback_local_ip(*config, preferred, route_hint)
        } else {
            None
        }),
{
    if !pending_detect {
        return None;
    }
    fallback_local_ip(config, preferred, route_hint)
}

/// What the heartbeat does this second.
#[derive(Clone, Copy, Debug, PartialEq, Eq, Structural)]
pub enum HeartbeatMode {
    Stop,
    Broadcast,
    Unicast(IpAddress),
}

/// Unicast to a configured console; broadcast while an auto-detect waits;
/// otherwise silent.
pub fn heartbeat_mode(ps5_ip: Option<IpAddress>, detect_pending: bool) -> (r: HeartbeatMode)
    ensures
        r == (match ps5_ip {
            Some(ip) => HeartbeatMode::Unicast(ip),
            None => if detect_pending {
                HeartbeatMode::Broadcast
            } else {
                HeartbeatMode::Stop
            },
        }),
{
    match ps5_ip {
        Some(ip) => HeartbeatMode::Unicast(ip),
        None => if detect_pending {
            HeartbeatMode::Broadcast
        } else {
            HeartbeatMode::Stop
        },
    }
}

/// 255.255.255.255
pub const IPV4_BROADCAST: u32 = 0xFFFF_FFFF;

/// Local address the heartbeat socket should have for `mode`: none when
/// stopped; for unicast the address the kernel routes the target from, else
/// the fallback; for broadcast the fallback.
pub fn heartbeat_bind_target(
    mode: HeartbeatMode,
    route_for_target: Option<IpAddress>,
    fallback: Option<IpAddress>,
) -> (r: Option<IpAddress>)
    ensures
        r == (match mode {
            HeartbeatMode::Stop => None,
            HeartbeatMode::Unicast(_) => if route_for_target is Some {
                route_for_target
            } else {
                fallback
            },
            HeartbeatMode::Broadcast => fallback,
        }),
{
    match mode {
        HeartbeatMode::Stop => None,
        HeartbeatMode::Unicast(_) => if route_for_target.is_some() {
            route_for_target
        } else {
            fallback
        },
        HeartbeatMode::Broadcast => fallback,
    }
}

/// What the heartbeat task does on one tick.
#[derive(Clone, Copy, Debug, PartialEq, Eq, Structural)]
pub struct HeartbeatPlan {
    /// Bind the socket anew to this local address.
    pub rebind_to: Option<IpAddress>,
    /// The mode from now on.
    pub mode: HeartbeatMode,
    /// Set (or clear) the socket's broadcast option.
    pub set_broadcast: Option<bool>,
    /// Send the heartbeat byte to this address.
    pub send_to: Option<IpAddress>,
}

/// Plans one heartbeat tick. Without a local address to bind for a mode that
/// sends, the heartbeat stops. A change of mode sets the broadcast option,
/// on for broadcast only. When sending is due, the byte goes to the console
/// in unicast and to the broadcast address in broadcast.
pub fn plan_heartbeat(
    current_mode: HeartbeatMode,
    current_bind: IpAddress,
    next_mode: HeartbeatMode,
    target_bind: Option<IpAddress>,
    send_now: bool,
) -> (r: HeartbeatPlan)
    ensures
        target_bind is None && next_mode != HeartbeatMode::Stop ==> r == (HeartbeatPlan {
            rebind_to: None,
            mode: HeartbeatMode::Stop,
            set_broadcast: None,
            send_to: None,
        }),
        !(target_bind is None && next_mode != HeartbeatMode::Stop) ==> {
            &&& r.rebind_to == (match target_bind {
                Some(b) => if b != current_bind {
                    Some(b)
                } else {
                    None
                },
                None => None,
            })
            &&& r.mode == next_mode
            &&& r.set_broadcast == (if next_mode != current_mode {
                Some(next_mode == HeartbeatMode::Broadcast)
            } else {
                None
            })
            &&& r.send_to == (if !send_now {
                None
            } else {
                match next_mode {
                    HeartbeatMode::Stop => None,
                    HeartbeatMode::Broadcast => Some(IpAddress::V4(IPV4_BROADCAST)),
                    HeartbeatMode::Unicast(ip) => Some(ip),
                }
            })
        },
{
    let rebind_to = match target_bind {
        Some(b) => if b != current_bind {
            Some(b)
        } else {
            None
        },
        None => {
            if next_mode != HeartbeatMode::Stop {
                return HeartbeatPlan {
                    rebind_to: None,
                    mode: HeartbeatMode::Stop,
                    set_broadcast: None,
                    send_to: None,
                };
            }
            None
        },
    };
    let set_broadcast = if next_mode != current_mode {
        Some(next_mode == HeartbeatMode::Broadcast)
    } else {
        None
    };
    let send_to = if !send_now {
        None
    } else {
        match next_mode {
            HeartbeatMode::Stop => None,
            HeartbeatMode::Broadcast => Some(IpAddress::V4(IPV4_BROADCAST)),
            HeartbeatMode::Unicast(ip) => Some(ip),
        }
    };
    HeartbeatPlan { rebind_to, mode: next_mode, set_broadcast, send_to }
}

/// Port the source listens on for heartbeats.
pub const HEARTBEAT_PORT: u16 = 33739;

/// The single heartbeat byte.
pub const HEARTBEAT_BYTE: u8 = 0x41;

/// How long without telemetry before a unicast heartbeat is worth a warning.
pub const HEARTBEAT_STALE_MS: u64 = 5000;

/// Whether to warn that unicast heartbeats get no telemetry back: in unicast
/// mode, with the last telemetry at least 5 s old (or none yet), and no
/// warning in the last 5 s.
pub fn should_warn_stale(
    mode: HeartbeatMode,
    now_ms: u64,
    last_telemetry_ms: Option<u64>,
    last_warn_ms: Option<u64>,
) -> (r: bool)
    ensures
        r == (mode is Unicast && (match last_telemetry_ms {
            Some(t) => now_ms >= t && now_ms - t >= HEARTBEAT_STALE_MS,
            None => true,
        }) && (match last_warn_ms {
            Some(w) => now_ms < w || now_ms - w >= HEARTBEAT_STALE_MS,
            None => true,
        })),
{
    let unicast = match mode {
        HeartbeatMode::Unicast(_) => true,
        _ => false,
    };
    let stale = match last_telemetry_ms {
        Some(t) => now_ms >= t && now_ms - t >= HEARTBEAT_STALE_MS,
        None => true,
    };
    let warn_due = match last_warn_ms {
        Some(w) => now_ms < w || now_ms - w >= HEARTBEAT_STALE_MS,
        None => true,
    };
    unicast && stale && warn_due
}

/// Listening address and, once known, the console's address.
#[derive(Clone, Copy, Debug, PartialEq, Eq, Structural)]
pub struct UdpConfig {
    pub bind_addr: IpAddress,
    pub ps5_ip: Option<IpAddress>,
}

impl Default for UdpConfig {
    /// Loopback, no console.
    fn default() -> (r: UdpConfig)
        ensures
            r == (UdpConfig { bind_addr: IpAddress::V4(IPV4_LOOPBACK), ps5_ip: None }),
    {
        UdpConfig { bind_addr: IpAddress::V4(IPV4_LOOPBACK), ps5_ip: None }
    }
}

} // verus!
