//! Timing policy of the control loop: when to ping the control channel, when
//! to ask for a UDP channel, when to renew the session, and when to probe the
//! UDP channel's liveness. The loop itself, with its timers and messages, is
//! run by the caller, which hands in the time and acts on the decisions.
use vstd::prelude::*;

verus! {

/// Milliseconds between pings.
pub const PING_INTERVAL_MS: u64 = 5_000;

/// A keep-alive is sent only when the session expires within this many milliseconds.
pub const KEEP_ALIVE_WINDOW_MS: u64 = 30_000;

/// Minimum milliseconds between two keep-alives.
pub const KEEP_ALIVE_GAP_MS: u64 = 10_000;

/// Milliseconds without a confirmed inbound datagram after which the token is
/// resent as a liveness probe.
pub const LIVENESS_PROBE_MS: u64 = 15_000;

/// What to send on the control channel at one tick of the loop.
#[derive(PartialEq, Eq, Structural, Clone, Copy, Debug)]
pub struct TickActions {
    pub send_ping: bool,
    pub request_udp_setup: bool,
    pub send_keep_alive: bool,
}

/// When the last ping and keep-alive were sent (milliseconds).
#[derive(PartialEq, Eq, Structural, Clone, Copy, Debug)]
pub struct ControlSchedule {
    pub last_ping: u64,
    pub last_keep_alive: u64,
}

/// More than the ping interval has passed since the last ping.
pub open spec fn ping_due(last_ping: u64, now: u64) -> bool {
    now - last_ping > PING_INTERVAL_MS
}

/// Milliseconds until the session expires; zero once it has.
pub open spec fn time_till_expire(expire_at: u64, now: u64) -> int {
    if expire_at > now {
        expire_at - now
    } else {
        0
    }
}

/// The session expires soon and no keep-alive went out recently.
pub open spec fn keep_alive_due(last_keep_alive: u64, expire_at: u64, now: u64) -> bool {
    now - last_keep_alive > KEEP_ALIVE_GAP_MS && time_till_expire(expire_at, now)
        < KEEP_ALIVE_WINDOW_MS
}

/// The schedule after a tick at `now` and what to send.
pub open spec fn tick_outcome(s: ControlSchedule, now: u64, expire_at: u64, udp_setup: bool) -> (
    ControlSchedule,
    TickActions,
) {
    let p = ping_due(s.last_ping, now);
    let k = keep_alive_due(s.last_keep_alive, expire_at, now);
    (
        ControlSchedule {
            last_ping: if p {
                now
            } else {
                s.last_ping
            },
            last_keep_alive: if k {
                now
            } else {
                s.last_keep_alive
            },
        },
        TickActions { send_ping: p, request_udp_setup: p && !udp_setup, send_keep_alive: k },
    )
}

/// Whether the UDP channel's token should be resent as a liveness probe at
/// `now`, the last confirmed inbound datagram having come at `last_confirm`.
pub fn liveness_probe_due(now: u64, last_confirm: u64) -> (r: bool)
    ensures
        r == (now - last_confirm > LIVENESS_PROBE_MS),
{
    now > last_confirm && now - last_confirm > LIVENESS_PROBE_MS
}

impl ControlSchedule {
    /// A schedule under which nothing was sent yet.
    pub fn new() -> (r: ControlSchedule)
        ensures
            r == (ControlSchedule { last_ping: 0, last_keep_alive: 0 }),
    {
        ControlSchedule { last_ping: 0, last_keep_alive: 0 }
    }

    /// Decides what to send at `now`, the session expiring at `expire_at` and
    /// the UDP channel set up or not, and records what is sent.
    pub fn on_tick(&mut self, now: u64, expire_at: u64, udp_setup: bool) -> (r: TickActions)
        ensures
            (*final(self), r) == tick_outcome(*old(self), now, expire_at, udp_setup),
    {
        let send_ping = now > self.last_ping && now - self.last_ping > PING_INTERVAL_MS;
        let till_expire: u64 = if expire_at > now {
            expire_at - now
        } else {
            0
        };
        let send_keep_alive = now > self.last_keep_alive && now - self.last_keep_alive
            > KEEP_ALIVE_GAP_MS && till_expire < KEEP_ALIVE_WINDOW_MS;
        if send_ping {
            self.last_ping = now;
        }
        if send_keep_alive {
            self.last_keep_alive = now;
        }
        TickActions { send_ping, request_udp_setup: send_ping && !udp_setup, send_keep_alive }
    }
}

} // verus!
