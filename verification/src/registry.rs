use vstd::prelude::*;

use crate::connection::{is_timed_out_spec, unix_nanos_now, Connection, NANOS_PER_SEC, TIMEOUT_SECS};

verus! {

/// Seconds between two sweeps of timed-out connections.
pub const SWEEP_INTERVAL_SECS: u64 = 30;

/// The sweep times `times` (nanoseconds from the epoch) are each at most one sweep
/// interval after the one before.
pub open spec fn sweeps_every_interval(times: Seq<i128>) -> bool {
    forall|k: int|
        0 <= k < times.len() - 1 ==> #[trigger] times[k + 1] <= times[k] + SWEEP_INTERVAL_SECS
            * NANOS_PER_SEC
}

/// The connections that the service holds, in the order they were added.
pub struct ConnectionRegistry {
    connections: Vec<Connection>,
}

impl View for ConnectionRegistry {
    type V = Seq<Connection>;

    closed spec fn view(&self) -> Seq<Connection> {
        self.connections@
    }
}

/// Keeps the connections whose id is not `id`.
pub open spec fn has_other_id(id: u128) -> spec_fn(Connection) -> bool {
    |c: Connection| c.id != id
}

/// Keeps the connections that are not timed out at `now`.
pub open spec fn is_live_at(now: i128) -> spec_fn(Connection) -> bool {
    |c: Connection| !is_timed_out_spec(c.last_activity, now)
}

/// `i` is the first position of `s` that holds a connection with id `id`.
pub open spec fn is_first_with_id(s: Seq<Connection>, id: u128, i: int) -> bool {
    &&& 0 <= i < s.len()
    &&& s[i].id == id
    &&& forall|j: int| 0 <= j < i ==> s[j].id != id
}

/// Some connection of `s` has id `id`.
pub open spec fn contains_id(s: Seq<Connection>, id: u128) -> bool {
    exists|i: int| 0 <= i < s.len() && s[i].id == id
}

/// `c` with its last activity set to `now`.
pub open spec fn with_activity(c: Connection, now: i128) -> Connection {
    Connection { last_activity: now, ..c }
}

/// `t` is `s` after recording activity at `now` on the first connection
/// with id `id`; `s` unchanged where there is none.
pub open spec fn is_touched(s: Seq<Connection>, t: Seq<Connection>, id: u128, now: i128) -> bool {
    if contains_id(s, id) {
        exists|i: int| is_first_with_id(s, id, i) && t == s.update(i, with_activity(s[i], now))
    } else {
        t == s
    }
}

impl ConnectionRegistry {
    /// An empty registry.
    pub fn new() -> (r: ConnectionRegistry)
        ensures
            r@ == Seq::<Connection>::empty(),
    {
        ConnectionRegistry { connections: Vec::new() }
    }

    /// The number of connections.
    pub fn len(&self) -> (n: usize)
        ensures
            n == self@.len(),
    {
        self.connections.len()
    }

    /// Whether there is no connection.
    pub fn is_empty(&self) -> (b: bool)
        ensures
            b == (self@.len() == 0),
    {
        self.connections.len() == 0
    }

    /// A copy of the connections, in order.
    pub fn snapshot(&self) -> (v: Vec<Connection>)
        ensures
            v@ == self@,
    {
        let mut v: Vec<Connection> = Vec::new();
        let n = self.connections.len();
        let mut i: usize = 0;
        while i < n
            invariant
                n == self.connections@.len(),
                i <= n,
                v@ == self.connections@.take(i as int),
            decreases n - i,
        {
            v.push(self.connections[i].duplicate());
            proof {
                assert(self.connections@.take(i + 1) =~= self.connections@.take(i as int).push(
                    self.connections@[i as int],
                ));
            }
            i = i + 1;
        }
        proof {
            assert(self.connections@.take(n as int) =~= self.connections@);
        }
        v
    }

    /// Adds a connection at the end.
    pub fn add(&mut self, connection: Connection)
        ensures
            final(self)@ == old(self)@.push(connection),
    {
        self.connections.push(connection);
    }

    /// Records activity at `now` on the first connection with id `id`;
    /// tells whether there was one.
    pub fn touch(&mut self, id: u128, now: i128) -> (found: bool)
        ensures
            found == contains_id(old(self)@, id),
            is_touched(old(self)@, final(self)@, id, now),
    {
        let n = self.connections.len();
        let mut i: usize = 0;
        while i < n
            invariant
                n == self.connections@.len(),
                i <= n,
                self.connections@ == old(self).connections@,
                forall|j: int| 0 <= j < i ==> self.connections@[j].id != id,
            decreases n - i,
        {
            if self.connections[i].id == id {
                let mut c = self.connections[i].duplicate();
                c.update_activity_at(now);
                let ghost before = self.connections@;
                self.connections.set(i, c);
                proof {
                    assert(contains_id(before, id));
                    assert(is_first_with_id(before, id, i as int));
                    assert(c == with_activity(before[i as int], now));
                    assert(self.connections@ == before.update(i as int, c));
                }
                return true;
            }
            i = i + 1;
        }
        false
    }

    /// Removes every connection with id `id`, keeping the order of the rest.
    pub fn remove(&mut self, id: u128)
        ensures
            final(self)@ == old(self)@.filter(has_other_id(id)),
    {
        let n = self.connections.len();
        let mut kept: Vec<Connection> = Vec::new();
        let mut i: usize = 0;
        while i < n
            invariant
                n == self.connections@.len(),
                i <= n,
                self.connections@ == old(self).connections@,
                kept@ == self.connections@.take(i as int).filter(has_other_id(id)),
            decreases n - i,
        {
            proof {
                let t = self.connections@.take(i + 1);
                assert(t.drop_last() =~= self.connections@.take(i as int));
                assert(t.last() == self.connections@[i as int]);
                reveal(Seq::filter);
            }
            if self.connections[i].id != id {
                kept.push(self.connections[i].duplicate());
            }
            i = i + 1;
        }
        proof {
            assert(self.connections@.take(n as int) =~= self.connections@);
        }
        self.connections = kept;
    }

    /// Removes the connections that are timed out at `now`, keeping the
    /// order of the rest; returns how many it removed.
    pub fn remove_timed_out(&mut self, now: i128) -> (removed: usize)
        ensures
            final(self)@ == old(self)@.filter(is_live_at(now)),
            removed == old(self)@.len() - final(self)@.len(),
    {
        let n = self.connections.len();
        let mut kept: Vec<Connection> = Vec::new();
        let mut i: usize = 0;
        while i < n
            invariant
                n == self.connections@.len(),
                i <= n,
                self.connections@ == old(self).connections@,
                kept@ == self.connections@.take(i as int).filter(is_live_at(now)),
                kept@.len() <= i,
            decreases n - i,
        {
            proof {
                let t = self.connections@.take(i + 1);
                assert(t.drop_last() =~= self.connections@.take(i as int));
                assert(t.last() == self.connections@[i as int]);
                reveal(Seq::filter);
            }
            if !self.connections[i].is_timed_out_at(now) {
                kept.push(self.connections[i].duplicate());
            }
            i = i + 1;
        }
        proof {
            assert(self.connections@.take(n as int) =~= self.connections@);
        }
        let removed = n - kept.len();
        self.connections = kept;
        removed
    }

    /// Removes the connections that are timed out at the current time.
    pub fn remove_timed_out_now(&mut self) -> (removed: usize)
        ensures
            exists|now: i128|
                final(self)@ == old(self)@.filter(is_live_at(now)) && removed == old(self)@.len()
                    - final(self)@.len(),
    {
        let now = unix_nanos_now();
        self.remove_timed_out(now)
    }
}

/// Filtering keeps a sequence whose elements all pass.
proof fn lemma_filter_all_pass(s: Seq<Connection>, pred: spec_fn(Connection) -> bool)
    requires
        forall|i: int| 0 <= i < s.len() ==> pred(#[trigger] s[i]),
    ensures
        s.filter(pred) == s,
    decreases s.len(),
{
    reveal(Seq::filter);
    if s.len() > 0 {
        let p = s.drop_last();
        assert forall|i: int| 0 <= i < p.len() implies pred(#[trigger] p[i]) by {
            assert(p[i] == s[i]);
        }
        lemma_filter_all_pass(p, pred);
        assert(pred(s[s.len() - 1]));
        assert(p.push(s.last()) =~= s);
    } else {
        assert(s.filter(pred) =~= s);
    }
}

/// Adding a connection whose id no other connection has and then removing
/// that id gives back the registry as it was.
pub proof fn lemma_add_then_remove(s: Seq<Connection>, c: Connection)
    requires
        !contains_id(s, c.id),
    ensures
        s.push(c).filter(has_other_id(c.id)) == s,
{
    reveal(Seq::filter);
    let t = s.push(c);
    assert(t.drop_last() =~= s);
    assert(!has_other_id(c.id)(t.last()));
    assert forall|i: int| 0 <= i < s.len() implies has_other_id(c.id)(#[trigger] s[i]) by {}
    lemma_filter_all_pass(s, has_other_id(c.id));
}

/// After removing an id no connection has it, every connection with
/// another id stays, and removing it again changes nothing.
pub proof fn lemma_remove(s: Seq<Connection>, id: u128)
    ensures
        !contains_id(s.filter(has_other_id(id)), id),
        forall|i: int|
            0 <= i < s.len() && s[i].id != id ==> #[trigger] s.filter(has_other_id(id)).contains(
                s[i],
            ),
        s.filter(has_other_id(id)).filter(has_other_id(id)) == s.filter(has_other_id(id)),
{
    let f = s.filter(has_other_id(id));
    broadcast use vstd::seq_lib::group_filter_ensures;
    assert forall|i: int| 0 <= i < f.len() implies has_other_id(id)(#[trigger] f[i]) by {}
    lemma_filter_all_pass(f, has_other_id(id));
}

/// After a sweep at `now` no connection left is timed out at `now`, every
/// connection that was live then stays, and the sweep removed exactly the
/// difference in length.
pub proof fn lemma_sweep(s: Seq<Connection>, now: i128)
    ensures
        forall|k: int|
            0 <= k < s.filter(is_live_at(now)).len() ==> !is_timed_out_spec(
                (#[trigger] s.filter(is_live_at(now))[k]).last_activity,
                now,
            ),
        forall|i: int|
            0 <= i < s.len() && !is_timed_out_spec(s[i].last_activity, now)
                ==> #[trigger] s.filter(is_live_at(now)).contains(s[i]),
        s.filter(is_live_at(now)).len() <= s.len(),
{
    broadcast use vstd::seq_lib::group_filter_ensures;
    let f = s.filter(is_live_at(now));
    assert forall|k: int| 0 <= k < f.len() implies !is_timed_out_spec(
        (#[trigger] f[k]).last_activity,
        now,
    ) by {
        assert(is_live_at(now)(f[k]));
    }
}

/// A connection touched at `now` survives a sweep at `now`.
pub proof fn lemma_touched_survives_sweep(s: Seq<Connection>, id: u128, i: int, now: i128)
    requires
        is_first_with_id(s, id, i),
    ensures
        s.update(i, with_activity(s[i], now)).filter(is_live_at(now)).contains(
            with_activity(s[i], now),
        ),
{
    let t = s.update(i, with_activity(s[i], now));
    broadcast use vstd::seq_lib::group_filter_ensures;
    assert(t[i] == with_activity(s[i], now));
    assert(is_live_at(now)(t[i]));
}

proof fn lemma_first_sweep_from(times: Seq<i128>, deadline: int, k: int) -> (i: int)
    requires
        0 <= k < times.len(),
        times[k] <= deadline,
        times.last() >= deadline,
        sweeps_every_interval(times),
    ensures
        k <= i < times.len(),
        deadline <= times[i] <= deadline + SWEEP_INTERVAL_SECS * NANOS_PER_SEC,
    decreases times.len() - k,
{
    if times[k] == deadline {
        k
    } else {
        assert(k + 1 < times.len());
        assert(times[k + 1] <= times[k] + SWEEP_INTERVAL_SECS * NANOS_PER_SEC);
        if times[k + 1] >= deadline {
            k + 1
        } else {
            lemma_first_sweep_from(times, deadline, k + 1)
        }
    }
}

/// With a sweep at least every 30 seconds, starting no later than the time
/// a connection times out, a connection with no activity after
/// `last_activity` is gone after a sweep that runs at most 61 + 30 seconds
/// after that activity: the sweep at `times[i]` removes it from any
/// registry.
pub proof fn lemma_sweep_deadline(times: Seq<i128>, last_activity: i128) -> (i: int)
    requires
        times.len() > 0,
        sweeps_every_interval(times),
        times[0] <= last_activity + (TIMEOUT_SECS + 1) * NANOS_PER_SEC,
        times.last() >= last_activity + (TIMEOUT_SECS + 1 + SWEEP_INTERVAL_SECS) * NANOS_PER_SEC,
    ensures
        0 <= i < times.len(),
        times[i] <= last_activity + (TIMEOUT_SECS + 1 + SWEEP_INTERVAL_SECS) * NANOS_PER_SEC,
        is_timed_out_spec(last_activity, times[i]),
        forall|s: Seq<Connection>, c: Connection|
            c.last_activity == last_activity ==> !#[trigger] s.filter(is_live_at(times[i])).contains(
                c,
            ),
{
    broadcast use vstd::seq_lib::group_filter_ensures;

    let deadline = last_activity + (TIMEOUT_SECS + 1) * NANOS_PER_SEC;
    let i = lemma_first_sweep_from(times, deadline, 0);
    let t = times[i];
    assert(t >= last_activity);
    assert((t - last_activity) / (NANOS_PER_SEC as int) >= TIMEOUT_SECS + 1) by (nonlinear_arith)
        requires
            t - last_activity >= (TIMEOUT_SECS + 1) * NANOS_PER_SEC,
    ;
    assert(is_timed_out_spec(last_activity, t));
    assert forall|s: Seq<Connection>, c: Connection|
        c.last_activity == last_activity implies !#[trigger] s.filter(
        is_live_at(times[i]),
    ).contains(c) by {
        let f = s.filter(is_live_at(t));
        if f.contains(c) {
            let k = choose|k: int| 0 <= k < f.len() && f[k] == c;
            assert(is_live_at(t)(f[k]));
        }
    }
    i
}

} // verus!
