use vstd::prelude::*;
use vstd::string::*;

verus! {

/// Whole seconds of inactivity after which a connection counts as timed out
/// once exceeded.
pub const TIMEOUT_SECS: u64 = 60;

/// Nanoseconds in a second.
pub const NANOS_PER_SEC: u64 = 1_000_000_000;

/// Nanoseconds in a millisecond.
pub const NANOS_PER_MILLI: u64 = 1_000_000;

/// A device connected over WebSocket. Times are nanoseconds from the Unix
/// epoch, negative before it.
#[derive(Debug, Clone)]
pub struct Connection {
    pub id: u128,
    pub device_name: String,
    pub connected_at: i128,
    pub last_activity: i128,
}

/// Whole seconds from `since` to `now`; zero where the clock went back.
pub open spec fn elapsed_secs(since: i128, now: i128) -> nat {
    if now >= since {
        ((now - since) / (NANOS_PER_SEC as int)) as nat
    } else {
        0
    }
}

/// Whether a connection last active at `last_activity` has been idle for
/// more than the timeout at `now`.
pub open spec fn is_timed_out_spec(last_activity: i128, now: i128) -> bool {
    elapsed_secs(last_activity, now) > TIMEOUT_SECS
}

/// `SystemTime::now()` against the Unix epoch (`duration_since`): whether
/// it is at or after the epoch, and how far from it in nanoseconds
/// (`Duration::as_nanos`). A `Duration` holds at most `u64::MAX` seconds
/// and less than a second more, which bounds the distance; the time itself
/// is the machine's, so nothing else is stated of it.
#[verifier::external_body]
fn system_time_from_epoch() -> (r: (bool, u128))
    ensures
        r.1 < (u64::MAX + 1) * NANOS_PER_SEC,
{
    match std::time::SystemTime::now().duration_since(std::time::UNIX_EPOCH) {
        Ok(d) => (true, d.as_nanos()),
        Err(e) => (false, e.duration().as_nanos()),
    }
}

/// The current time in nanoseconds from the Unix epoch, negative before it.
pub(crate) fn unix_nanos_now() -> i128 {
    let (after, nanos) = system_time_from_epoch();
    if after {
        nanos as i128
    } else {
        -(nanos as i128)
    }
}

/// `now` in whole milliseconds after the Unix epoch, kept to 64 bits as
/// `as u64` keeps them; zero before the epoch.
pub open spec fn millis_of(now: i128) -> u64 {
    if now >= 0 {
        (now as int / (NANOS_PER_MILLI as int)) as u64
    } else {
        0
    }
}

/// `now` in whole milliseconds after the Unix epoch; zero before it.
pub fn millis_from_nanos(now: i128) -> (ms: u64)
    ensures
        ms == millis_of(now),
{
    if now >= 0 {
        (now / (NANOS_PER_MILLI as i128)) as u64
    } else {
        0
    }
}

/// The current time in whole milliseconds after the Unix epoch; zero
/// before it.
pub(crate) fn unix_millis_now() -> u64 {
    millis_from_nanos(unix_nanos_now())
}

impl Connection {
    /// A connection that opened at `now` and has been active since.
    pub fn new(id: u128, device_name: String, now: i128) -> (c: Connection)
        ensures
            c.id == id,
            c.device_name == device_name,
            c.connected_at == now,
            c.last_activity == now,
    {
        Connection { id, device_name, connected_at: now, last_activity: now }
    }

    /// The record of a device that connected from the peer address `peer`
    /// at `now`: it is called "Device-" followed by the address.
    pub fn for_peer(id: u128, peer: &str, now: i128) -> (c: Connection)
        ensures
            c.id == id,
            c.device_name@ == "Device-"@ + peer@,
            c.connected_at == now,
            c.last_activity == now,
    {
        let mut name = String::from_str("Device-");
        name.append(peer);
        Connection::new(id, name, now)
    }

    /// An exact copy.
    pub fn duplicate(&self) -> (c: Connection)
        ensures
            c == *self,
    {
        Connection {
            id: self.id,
            device_name: self.device_name.clone(),
            connected_at: self.connected_at,
            last_activity: self.last_activity,
        }
    }

    /// Whole seconds since the last activity, at `now`.
    pub fn idle_secs_at(&self, now: i128) -> (s: u128)
        ensures
            s == elapsed_secs(self.last_activity, now),
    {
        let last = self.last_activity;
        if now < last {
            return 0;
        }
        let diff: u128 = if last >= 0 || now < 0 {
            (now - last) as u128
        } else {
            now as u128 + (-(last + 1)) as u128 + 1
        };
        diff / (NANOS_PER_SEC as u128)
    }

    /// Whether the connection has been idle for more than 60 seconds at `now`.
    pub fn is_timed_out_at(&self, now: i128) -> (r: bool)
        ensures
            r == is_timed_out_spec(self.last_activity, now),
    {
        self.idle_secs_at(now) > TIMEOUT_SECS as u128
    }

    /// Whether the connection has been idle for more than 60 seconds now.
    pub fn is_timed_out(&self) -> (r: bool)
        ensures
            exists|now: i128| r == is_timed_out_spec(self.last_activity, now),
    {
        let now = unix_nanos_now();
        self.is_timed_out_at(now)
    }

    /// Records activity at `now`.
    pub fn update_activity_at(&mut self, now: i128)
        ensures
            final(self).id == old(self).id,
            final(self).device_name == old(self).device_name,
            final(self).connected_at == old(self).connected_at,
            final(self).last_activity == now,
    {
        self.last_activity = now;
    }

    /// Records activity at the current time.
    pub fn update_activity(&mut self)
        ensures
            final(self).id == old(self).id,
            final(self).device_name == old(self).device_name,
            final(self).connected_at == old(self).connected_at,
    {
        let now = unix_nanos_now();
        self.update_activity_at(now);
    }
}

/// A connection that has just been active is not timed out.
pub proof fn lemma_fresh_activity_not_timed_out(now: i128)
    ensures
        !is_timed_out_spec(now, now),
{
}

} // verus!
