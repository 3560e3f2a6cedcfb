//! The bookkeeping of the SSH connection pool: which connections each
//! server has, which of them are in use, and when each was last used.
//! The sessions themselves are held by their owner, found again by the
//! connection's id.

use vstd::prelude::*;
use crate::platform::Server;
use crate::text::{chars_of, owned, seq_equal};
use dashmap::DashMap;

verus! {

#[verifier::external_type_specification]
#[verifier::external_body]
#[verifier::reject_recursive_types(K)]
#[verifier::reject_recursive_types(V)]
#[verifier::reject_recursive_types(S)]
pub struct ExDashMap<K, V, S>(DashMap<K, V, S>);

/// Configuration for the connection pool (times in milliseconds).
#[derive(Debug, Clone, Copy)]
pub struct PoolConfig {
    /// Maximum connections per server
    pub max_connections_per_server: usize,
    /// Maximum total connections
    pub max_total_connections: usize,
    /// Idle time after which a connection is closed
    pub idle_timeout_ms: u64,
    /// Connection timeout
    pub connect_timeout_ms: u64,
    /// Health check interval
    pub health_check_interval_ms: u64,
}

impl PoolConfig {
    /// Five connections per server, a hundred in all; five minutes of
    /// idleness, thirty seconds to connect, a health check every minute.
    pub fn default() -> (r: Self)
        ensures
            r.max_connections_per_server == 5,
            r.max_total_connections == 100,
            r.idle_timeout_ms == 300_000,
            r.connect_timeout_ms == 30_000,
            r.health_check_interval_ms == 60_000,
    {
        PoolConfig {
            max_connections_per_server: 5,
            max_total_connections: 100,
            idle_timeout_ms: 300_000,
            connect_timeout_ms: 30_000,
            health_check_interval_ms: 60_000,
        }
    }
}

/// Server connection key
#[derive(Debug, Clone, PartialEq, Eq, Hash)]
pub struct ServerKey {
    pub ip: String,
    pub port: u16,
    pub user: String,
}

/// The value of a key: address, port and user.
pub open spec fn key_view(k: ServerKey) -> (Seq<char>, u16, Seq<char>) {
    (k.ip@, k.port, k.user@)
}

impl ServerKey {
    pub fn new(ip: &str, port: u16, user: &str) -> (r: Self)
        ensures
            key_view(r) == (ip@, port, user@),
    {
        ServerKey { ip: owned(ip), port, user: owned(user) }
    }

    /// The key of a server.
    pub fn for_server(server: &Server) -> (r: Self)
        ensures
            key_view(r) == (server.ip@, server.port, server.user@),
    {
        ServerKey { ip: server.ip.clone(), port: server.port, user: server.user.clone() }
    }

    /// Whether two keys name the same server.
    pub fn same(&self, other: &ServerKey) -> (b: bool)
        ensures
            b == (key_view(*self) == key_view(*other)),
    {
        if self.port != other.port {
            return false;
        }
        let a = chars_of(self.ip.as_str());
        let b = chars_of(other.ip.as_str());
        if !seq_equal(&a, &b) {
            return false;
        }
        let c = chars_of(self.user.as_str());
        let d = chars_of(other.user.as_str());
        seq_equal(&c, &d)
    }
}

/// A pooled connection, found again by its id.
#[derive(Debug, Clone, Copy, PartialEq, Eq, Structural)]
pub struct PooledConnection {
    pub conn_id: u64,
    pub created_at_ms: i64,
    pub last_used_ms: i64,
    pub in_use: bool,
}

/// A connection idle for longer than the timeout.
pub open spec fn expired(c: PooledConnection, now: i64, timeout: u64) -> bool {
    now - c.last_used_ms > timeout
}

/// A connection idle for longer than the timeout.
pub fn is_expired(c: &PooledConnection, now: i64, timeout: u64) -> (b: bool)
    ensures
        b == expired(*c, now, timeout),
{
    (now as i128) - (c.last_used_ms as i128) > (timeout as i128)
}

/// The connections of one server.
pub struct ServerSlot {
    pub key: ServerKey,
    pub connections: Vec<PooledConnection>,
}

/// The value of a slot: the server's key and its connections.
pub open spec fn slot_view(s: ServerSlot) -> ((Seq<char>, u16, Seq<char>), Seq<PooledConnection>) {
    (key_view(s.key), s.connections@)
}

/// The number of connections of all servers.
pub open spec fn total_of(v: Seq<((Seq<char>, u16, Seq<char>), Seq<PooledConnection>)>) -> nat
    decreases v.len(),
{
    if v.len() == 0 {
        0
    } else {
        total_of(v.drop_last()) + v.last().1.len()
    }
}

/// The number of connections in use in a list.
pub open spec fn in_use_in(cs: Seq<PooledConnection>) -> nat
    decreases cs.len(),
{
    if cs.len() == 0 {
        0
    } else {
        in_use_in(cs.drop_last()) + if cs.last().in_use {
            1nat
        } else {
            0nat
        }
    }
}

/// The number of connections in use on all servers.
pub open spec fn in_use_of(v: Seq<((Seq<char>, u16, Seq<char>), Seq<PooledConnection>)>) -> nat
    decreases v.len(),
{
    if v.len() == 0 {
        0
    } else {
        in_use_of(v.drop_last()) + in_use_in(v.last().1)
    }
}

/// No two slots are for the same server.
pub open spec fn keys_unique(v: Seq<((Seq<char>, u16, Seq<char>), Seq<PooledConnection>)>) -> bool {
    forall|i: int, j: int| 0 <= i < j < v.len() ==> v[i].0 != v[j].0
}

/// The slot of a server, when it has one.
pub open spec fn slot_index(v: Seq<((Seq<char>, u16, Seq<char>), Seq<PooledConnection>)>, k: (
    Seq<char>,
    u16,
    Seq<char>,
)) -> Option<int> {
    if exists|i: int| 0 <= i < v.len() && v[i].0 == k {
        Some(choose|i: int| 0 <= i < v.len() && v[i].0 == k)
    } else {
        None
    }
}

/// The connections that an idle cleanup keeps: those in use and those not
/// idle for too long.
pub open spec fn kept_by_cleanup(cs: Seq<PooledConnection>, now: i64, timeout: u64) -> Seq<
    PooledConnection,
>
    decreases cs.len(),
{
    if cs.len() == 0 {
        seq![]
    } else if cs.last().in_use || !expired(cs.last(), now, timeout) {
        kept_by_cleanup(cs.drop_last(), now, timeout).push(cs.last())
    } else {
        kept_by_cleanup(cs.drop_last(), now, timeout)
    }
}

/// The connections not idle for too long, whether in use or not.
pub open spec fn unexpired(cs: Seq<PooledConnection>, now: i64, timeout: u64) -> Seq<
    PooledConnection,
>
    decreases cs.len(),
{
    if cs.len() == 0 {
        seq![]
    } else if !expired(cs.last(), now, timeout) {
        unexpired(cs.drop_last(), now, timeout).push(cs.last())
    } else {
        unexpired(cs.drop_last(), now, timeout)
    }
}

/// The position of the first connection not in use.
pub open spec fn first_idle(cs: Seq<PooledConnection>) -> Option<int> {
    if exists|j: int| 0 <= j < cs.len() && !cs[j].in_use {
        Some(choose|j: int| 0 <= j < cs.len() && !cs[j].in_use && forall|l: int| 0 <= l < j ==> cs[l].in_use)
    } else {
        None
    }
}

/// The pool after an idle cleanup: each server keeps the connections the
/// cleanup keeps, and servers left without connections are dropped.
pub open spec fn cleaned(v: Seq<((Seq<char>, u16, Seq<char>), Seq<PooledConnection>)>, now: i64, timeout: u64) -> Seq<
    ((Seq<char>, u16, Seq<char>), Seq<PooledConnection>),
>
    decreases v.len(),
{
    if v.len() == 0 {
        seq![]
    } else {
        let rest = cleaned(v.drop_last(), now, timeout);
        let kept = kept_by_cleanup(v.last().1, now, timeout);
        if kept.len() == 0 {
            rest
        } else {
            rest.push((v.last().0, kept))
        }
    }
}

/// Pool statistics
#[derive(Debug, Clone, Copy)]
pub struct PoolStats {
    pub total_connections: usize,
    pub idle_connections: usize,
    pub in_use_connections: usize,
    pub servers_connected: usize,
}

/// A fresh connection, not yet in use.
pub open spec fn fresh(conn_id: u64, now: i64) -> PooledConnection {
    PooledConnection { conn_id, created_at_ms: now, last_used_ms: now, in_use: false }
}

/// The pool with a connection added to a server's list, the server being
/// added when it has none.
pub open spec fn added(v: Seq<((Seq<char>, u16, Seq<char>), Seq<PooledConnection>)>, k: (Seq<char>, u16, Seq<char>), c: PooledConnection) -> Seq<
    ((Seq<char>, u16, Seq<char>), Seq<PooledConnection>),
> {
    match slot_index(v, k) {
        Some(i) => v.update(i, (k, v[i].1.push(c))),
        None => v.push((k, seq![c])),
    }
}

/// A server's connections after one is handed back: those with the id
/// are idle again and were last used now.
pub open spec fn released(cs: Seq<PooledConnection>, conn_id: u64, now: i64) -> Seq<PooledConnection> {
    Seq::new(
        cs.len(),
        |j: int|
            if cs[j].conn_id == conn_id {
                PooledConnection { in_use: false, last_used_ms: now, ..cs[j] }
            } else {
                cs[j]
            },
    )
}

/// A server's connections after the first idle one is taken: in use, and
/// last used now.
pub open spec fn taken(cs: Seq<PooledConnection>, j: int, now: i64) -> Seq<PooledConnection> {
    cs.update(j, PooledConnection { in_use: true, last_used_ms: now, ..cs[j] })
}

/// What a `DashMap` of private keys holds: key text by key id.
pub uninterp spec fn key_contents(m: DashMap<u128, String>) -> Map<u128, Seq<char>>;

/// `DashMap::new`: an empty map.
#[verifier::external_body]
fn key_map_new() -> (r: DashMap<u128, String>)
    ensures
        key_contents(r).dom() == Set::<u128>::empty(),
{
    DashMap::new()
}

/// `DashMap::insert`: the key now holds the value, in place of any
/// earlier one; no other key changes.
#[verifier::external_body]
fn key_map_insert(m: &mut DashMap<u128, String>, k: u128, v: String)
    ensures
        key_contents(*final(m)) == key_contents(*old(m)).insert(k, v@),
{
    m.insert(k, v);
}

/// `DashMap::get`, the value cloned out of the entry: the value held
/// under the key, if any.
#[verifier::external_body]
fn key_map_get(m: &DashMap<u128, String>, k: u128) -> (r: Option<String>)
    ensures
        crate::providers::opt_text(r) == key_lookup(key_contents(*m), k),
{
    m.get(&k).map(|e| e.value().clone())
}

/// The private key registered under an id.
pub open spec fn key_lookup(m: Map<u128, Seq<char>>, id: u128) -> Option<Seq<char>> {
    if m.contains_key(id) {
        Some(m[id])
    } else {
        None
    }
}

/// Connection pool bookkeeping for SSH connections
pub struct ConnectionPool {
    pub config: PoolConfig,
    pub slots: Vec<ServerSlot>,
    pub private_keys: DashMap<u128, String>,
}

/// The count of a pool after one server's connections are replaced.
pub proof fn lemma_total_update(
    v: Seq<((Seq<char>, u16, Seq<char>), Seq<PooledConnection>)>,
    i: int,
    x: ((Seq<char>, u16, Seq<char>), Seq<PooledConnection>),
)
    requires
        0 <= i < v.len(),
    ensures
        total_of(v.update(i, x)) == total_of(v) - v[i].1.len() + x.1.len(),
        in_use_of(v.update(i, x)) == in_use_of(v) - in_use_in(v[i].1) + in_use_in(x.1),
    decreases v.len(),
{
    if i == v.len() - 1 {
        assert(v.update(i, x).drop_last() =~= v.drop_last());
    } else {
        lemma_total_update(v.drop_last(), i, x);
        assert(v.update(i, x).drop_last() =~= v.drop_last().update(i, x));
    }
}

/// No more connections are in use than there are.
pub proof fn lemma_in_use_bounded(cs: Seq<PooledConnection>)
    ensures
        in_use_in(cs) <= cs.len(),
    decreases cs.len(),
{
    if cs.len() > 0 {
        lemma_in_use_bounded(cs.drop_last());
    }
}

/// No more connections are in use, on all servers, than there are.
pub proof fn lemma_in_use_of_bounded(v: Seq<((Seq<char>, u16, Seq<char>), Seq<PooledConnection>)>)
    ensures
        in_use_of(v) <= total_of(v),
    decreases v.len(),
{
    if v.len() > 0 {
        lemma_in_use_of_bounded(v.drop_last());
        lemma_in_use_bounded(v.last().1);
    }
}

/// A prefix of a pool has no more connections than the pool.
pub proof fn lemma_total_prefix(v: Seq<((Seq<char>, u16, Seq<char>), Seq<PooledConnection>)>, n: int)
    requires
        0 <= n <= v.len(),
    ensures
        total_of(v.take(n)) <= total_of(v),
    decreases v.len(),
{
    if n < v.len() {
        assert(v.drop_last().take(n) =~= v.take(n));
        lemma_total_prefix(v.drop_last(), n);
    } else {
        assert(v.take(n) =~= v);
    }
}

/// Dropping connections leaves no more than there were.
pub proof fn lemma_unexpired_len(cs: Seq<PooledConnection>, now: i64, timeout: u64)
    ensures
        unexpired(cs, now, timeout).len() <= cs.len(),
        kept_by_cleanup(cs, now, timeout).len() <= cs.len(),
    decreases cs.len(),
{
    if cs.len() > 0 {
        lemma_unexpired_len(cs.drop_last(), now, timeout);
    }
}

/// A cleanup leaves no more connections than there were.
pub proof fn lemma_cleaned_total(
    v: Seq<((Seq<char>, u16, Seq<char>), Seq<PooledConnection>)>,
    now: i64,
    timeout: u64,
)
    ensures
        total_of(cleaned(v, now, timeout)) <= total_of(v),
    decreases v.len(),
{
    if v.len() > 0 {
        lemma_cleaned_total(v.drop_last(), now, timeout);
        lemma_unexpired_len(v.last().1, now, timeout);
        let rest = cleaned(v.drop_last(), now, timeout);
        let kept = kept_by_cleanup(v.last().1, now, timeout);
        assert(rest.push((v.last().0, kept)).drop_last() =~= rest);
    }
}

/// Every server of a cleaned pool was a server of the pool.
pub proof fn lemma_cleaned_keys(
    v: Seq<((Seq<char>, u16, Seq<char>), Seq<PooledConnection>)>,
    now: i64,
    timeout: u64,
    k: int,
)
    requires
        0 <= k < cleaned(v, now, timeout).len(),
    ensures
        exists|i: int| 0 <= i < v.len() && v[i].0 == cleaned(v, now, timeout)[k].0,
    decreases v.len(),
{
    let rest = cleaned(v.drop_last(), now, timeout);
    if k < rest.len() {
        lemma_cleaned_keys(v.drop_last(), now, timeout, k);
        let i = choose|i: int| 0 <= i < v.drop_last().len() && v.drop_last()[i].0 == rest[k].0;
        assert(v[i].0 == cleaned(v, now, timeout)[k].0);
    } else {
        assert(v[v.len() - 1].0 == cleaned(v, now, timeout)[k].0);
    }
}

/// A cleanup keeps one slot per server.
pub proof fn lemma_cleaned_unique(
    v: Seq<((Seq<char>, u16, Seq<char>), Seq<PooledConnection>)>,
    now: i64,
    timeout: u64,
)
    requires
        keys_unique(v),
    ensures
        keys_unique(cleaned(v, now, timeout)),
    decreases v.len(),
{
    if v.len() > 0 {
        let d = v.drop_last();
        assert(keys_unique(d));
        lemma_cleaned_unique(d, now, timeout);
        let rest = cleaned(d, now, timeout);
        let c = cleaned(v, now, timeout);
        if c.len() > rest.len() {
            assert forall|a: int, b: int| 0 <= a < b < c.len() implies c[a].0 != c[b].0 by {
                if b == c.len() - 1 {
                    lemma_cleaned_keys(d, now, timeout, a);
                    let i = choose|i: int| 0 <= i < d.len() && d[i].0 == rest[a].0;
                    assert(v[i].0 != v[v.len() - 1].0);
                }
            }
        }
    }
}

impl ConnectionPool {
    /// The servers and their connections.
    pub open spec fn view(&self) -> Seq<((Seq<char>, u16, Seq<char>), Seq<PooledConnection>)> {
        self.slots@.map_values(|s: ServerSlot| slot_view(s))
    }

    /// One slot per server, a connection count that fits a `usize`, and
    /// one private key per id.
    pub open spec fn wf(&self) -> bool {
        keys_unique(self.view()) && total_of(self.view()) <= usize::MAX
    }

    /// Create a new connection pool: the given configuration, no servers
    /// and no private keys.
    pub fn new(config: PoolConfig) -> (r: Self)
        ensures
            r.config == config,
            r.wf(),
            r.view().len() == 0,
            key_contents(r.private_keys).dom() == Set::<u128>::empty(),
    {
        let r = ConnectionPool { config, slots: Vec::new(), private_keys: key_map_new() };
        assert(r.view() =~= Seq::empty());
        r
    }

    fn find_slot(&self, key: &ServerKey) -> (r: Option<usize>)
        requires
            self.wf(),
        ensures
            match r {
                Some(i) => i < self.view().len() && self.view()[i as int].0 == key_view(*key)
                    && slot_index(self.view(), key_view(*key)) == Some(i as int),
                None => slot_index(self.view(), key_view(*key)) is None,
            },
    {
        let mut i: usize = 0;
        while i < self.slots.len()
            invariant
                i <= self.slots@.len(),
                self.wf(),
                self.view().len() == self.slots@.len(),
                forall|l: int| 0 <= l < i ==> self.view()[l].0 != key_view(*key),
            decreases self.slots@.len() - i,
        {
            if self.slots[i].key.same(key) {
                assert(self.view()[i as int].0 == key_view(*key));
                let ghost v = self.view();
                assert(keys_unique(v));
                assert(forall|l: int| 0 <= l < v.len() && v[l].0 == key_view(*key) ==> l == i);
                return Some(i);
            }
            i = i + 1;
        }
        None
    }

    /// Adds a new connection, not in use, to a server's list, the server
    /// being added when it has none.
    pub fn add_connection(&mut self, key: ServerKey, conn_id: u64, now: i64)
        requires
            old(self).wf(),
            total_of(old(self).view()) < usize::MAX,
        ensures
            final(self).wf(),
            final(self).view() == added(old(self).view(), key_view(key), fresh(conn_id, now)),
            total_of(final(self).view()) == total_of(old(self).view()) + 1,
            final(self).config == old(self).config,
            final(self).private_keys == old(self).private_keys,
    {
        let c = PooledConnection { conn_id, created_at_ms: now, last_used_ms: now, in_use: false };
        let ghost v = self.view();
        let ghost k = key_view(key);
        match self.find_slot(&key) {
            Some(i) => {
                let mut slot = self.slots.remove(i);
                slot.connections.push(c);
                self.slots.insert(i, slot);
                proof {
                    assert(self.view() =~= v.update(i as int, (k, v[i as int].1.push(c))));
                    lemma_total_update(v, i as int, (k, v[i as int].1.push(c)));
                }
            },
            None => {
                let mut conns: Vec<PooledConnection> = Vec::new();
                conns.push(c);
                assert(conns@ =~= seq![c]);
                self.slots.push(ServerSlot { key, connections: conns });
                proof {
                    assert(self.view() =~= v.push((k, seq![c])));
                    assert(self.view().drop_last() =~= v);
                    assert forall|a: int, b: int| 0 <= a < b < self.view().len() implies self.view()[a].0 != self.view()[b].0 by {
                        if b == v.len() {
                            assert(v[a].0 != k);
                        }
                    }
                }
            },
        }
    }

    /// Takes an idle connection of a server, after dropping the server's
    /// connections idle for too long: the first one not in use, now in
    /// use and last used now. `None` when the server has no such
    /// connection.
    pub fn acquire_idle(&mut self, key: &ServerKey, now: i64, timeout: u64) -> (r: Option<u64>)
        requires
            old(self).wf(),
        ensures
            final(self).wf(),
            match slot_index(old(self).view(), key_view(*key)) {
                None => final(self).view() == old(self).view() && r is None,
                Some(i) => {
                    let cs = unexpired(old(self).view()[i].1, now, timeout);
                    match first_idle(cs) {
                        Some(j) => r == Some(cs[j].conn_id) && final(self).view()
                            == old(self).view().update(i, (key_view(*key), taken(cs, j, now))),
                        None => r is None && final(self).view() == old(self).view().update(
                            i,
                            (key_view(*key), cs),
                        ),
                    }
                },
            },
            final(self).config == old(self).config,
            final(self).private_keys == old(self).private_keys,
    {
        let ghost v = self.view();
        let i = match self.find_slot(key) {
            Some(i) => i,
            None => {
                return None;
            },
        };
        let mut slot = self.slots.remove(i);
        let ghost cs0 = slot.connections@;
        let mut live: Vec<PooledConnection> = Vec::new();
        let mut k: usize = 0;
        while k < slot.connections.len()
            invariant
                k <= slot.connections@.len(),
                slot.connections@ == cs0,
                live@ == unexpired(cs0.take(k as int), now, timeout),
            decreases slot.connections@.len() - k,
        {
            assert(cs0.take(k + 1).drop_last() =~= cs0.take(k as int));
            assert(cs0.take(k + 1).last() == cs0[k as int]);
            let c = slot.connections[k];
            if !is_expired(&c, now, timeout) {
                live.push(c);
            }
            k = k + 1;
        }
        assert(cs0.take(cs0.len() as int) =~= cs0);
        let ghost cs1 = live@;
        proof {
            lemma_unexpired_len(cs0, now, timeout);
        }
        let mut j: usize = 0;
        while j < live.len()
            invariant
                j <= live@.len(),
                live@ == cs1,
                forall|l: int| 0 <= l < j ==> cs1[l].in_use,
            ensures
                j <= live@.len(),
                live@ == cs1,
                forall|l: int| 0 <= l < j ==> cs1[l].in_use,
                j < live@.len() ==> !cs1[j as int].in_use,
            decreases live@.len() - j,
        {
            if !live[j].in_use {
                break;
            }
            j = j + 1;
        }
        let r = if j < live.len() {
            let c = live[j];
            let id = c.conn_id;
            live.set(
                j,
                PooledConnection {
                    conn_id: c.conn_id,
                    created_at_ms: c.created_at_ms,
                    last_used_ms: now,
                    in_use: true,
                },
            );
            proof {
                assert(first_idle(cs1) == Some(j as int)) by {
                    let w = choose|w: int|
                        0 <= w < cs1.len() && !cs1[w].in_use && forall|l: int|
                            0 <= l < w ==> cs1[l].in_use;
                    assert(0 <= j < cs1.len() && !cs1[j as int].in_use && forall|l: int|
                        0 <= l < j ==> cs1[l].in_use);
                    if w < j {
                        assert(cs1[w].in_use);
                    }
                    if w > j {
                        assert(cs1[j as int].in_use);
                    }
                }
                assert(live@ =~= taken(cs1, j as int, now));
            }
            Some(id)
        } else {
            proof {
                assert(!exists|w: int| 0 <= w < cs1.len() && !cs1[w].in_use);
            }
            None
        };
        slot.connections = live;
        self.slots.insert(i, slot);
        proof {
            let x = (key_view(*key), self.slots@[i as int].connections@);
            assert(self.view() =~= v.update(i as int, x));
            lemma_total_update(v, i as int, x);
        }
        r
    }

    /// Closes the connections idle for too long, except those in use, and
    /// forgets the servers left without connections. Returns how many
    /// were closed.
    pub fn cleanup(&mut self, now: i64, timeout: u64) -> (removed: usize)
        requires
            old(self).wf(),
        ensures
            final(self).wf(),
            final(self).view() == cleaned(old(self).view(), now, timeout),
            removed == total_of(old(self).view()) - total_of(final(self).view()),
            final(self).config == old(self).config,
            final(self).private_keys == old(self).private_keys,
    {
        let ghost v = self.view();
        let mut new_slots: Vec<ServerSlot> = Vec::new();
        let mut before: usize = 0;
        let mut after: usize = 0;
        let mut i: usize = 0;
        proof {
            lemma_cleaned_total(v, now, timeout);
        }
        while i < self.slots.len()
            invariant
                i <= self.slots@.len(),
                self.view() == v,
                v.len() == self.slots@.len(),
                total_of(v) <= usize::MAX,
                new_slots@.map_values(|s: ServerSlot| slot_view(s)) == cleaned(v.take(i as int), now, timeout),
                before == total_of(v.take(i as int)),
                after == total_of(cleaned(v.take(i as int), now, timeout)),
            decreases self.slots@.len() - i,
        {
            let ghost t = v.take(i + 1);
            assert(t.drop_last() =~= v.take(i as int));
            assert(t.last() == v[i as int]);
            proof {
                lemma_total_prefix(v, i + 1);
                lemma_cleaned_total(t, now, timeout);
            }
            let slot = &self.slots[i];
            let ghost cs = slot.connections@;
            let mut kept: Vec<PooledConnection> = Vec::new();
            let mut k: usize = 0;
            while k < slot.connections.len()
                invariant
                    k <= slot.connections@.len(),
                    slot.connections@ == cs,
                    kept@ == kept_by_cleanup(cs.take(k as int), now, timeout),
                decreases slot.connections@.len() - k,
            {
                assert(cs.take(k + 1).drop_last() =~= cs.take(k as int));
                assert(cs.take(k + 1).last() == cs[k as int]);
                let c = slot.connections[k];
                if c.in_use || !is_expired(&c, now, timeout) {
                    kept.push(c);
                }
                k = k + 1;
            }
            assert(cs.take(cs.len() as int) =~= cs);
            let ghost rest = cleaned(v.take(i as int), now, timeout);
            assert(v[i as int].1 == cs);
            proof {
                if kept@.len() > 0 {
                    assert(cleaned(t, now, timeout) == rest.push((v[i as int].0, kept@)));
                    assert(rest.push((v[i as int].0, kept@)).drop_last() =~= rest);
                } else {
                    assert(cleaned(t, now, timeout) == rest);
                }
            }
            before = before + slot.connections.len();
            after = after + kept.len();
            if kept.len() > 0 {
                let key = ServerKey { ip: slot.key.ip.clone(), port: slot.key.port, user: slot.key.user.clone() };
                let ghost nv = new_slots@.map_values(|s: ServerSlot| slot_view(s));
                new_slots.push(ServerSlot { key, connections: kept });
                assert(new_slots@.map_values(|s: ServerSlot| slot_view(s)) =~= nv.push(
                    (v[i as int].0, kept_by_cleanup(cs, now, timeout)),
                ));
            }
            i = i + 1;
        }
        assert(v.take(v.len() as int) =~= v);
        proof {
            lemma_cleaned_unique(v, now, timeout);
        }
        self.slots = new_slots;
        before - after
    }

    /// Pool statistics
    pub fn stats(&self) -> (r: PoolStats)
        requires
            self.wf(),
        ensures
            r.total_connections == total_of(self.view()),
            r.in_use_connections == in_use_of(self.view()),
            r.idle_connections == total_of(self.view()) - in_use_of(self.view()),
            r.total_connections == r.idle_connections + r.in_use_connections,
            r.servers_connected == self.view().len(),
    {
        let ghost v = self.view();
        let mut total: usize = 0;
        let mut in_use: usize = 0;
        let mut i: usize = 0;
        while i < self.slots.len()
            invariant
                i <= self.slots@.len(),
                self.view() == v,
                v.len() == self.slots@.len(),
                total_of(v) <= usize::MAX,
                total == total_of(v.take(i as int)),
                in_use == in_use_of(v.take(i as int)),
                in_use <= total,
            decreases self.slots@.len() - i,
        {
            let ghost t = v.take(i + 1);
            assert(t.drop_last() =~= v.take(i as int));
            assert(t.last() == v[i as int]);
            proof {
                lemma_total_prefix(v, i + 1);
            }
            let conns = &self.slots[i].connections;
            let ghost cs = conns@;
            let mut used: usize = 0;
            let mut k: usize = 0;
            while k < conns.len()
                invariant
                    k <= conns@.len(),
                    conns@ == cs,
                    used == in_use_in(cs.take(k as int)),
                    used <= k,
                decreases conns@.len() - k,
            {
                assert(cs.take(k + 1).drop_last() =~= cs.take(k as int));
                assert(cs.take(k + 1).last() == cs[k as int]);
                if conns[k].in_use {
                    used = used + 1;
                }
                k = k + 1;
            }
            assert(cs.take(cs.len() as int) =~= cs);
            total = total + conns.len();
            in_use = in_use + used;
            i = i + 1;
        }
        assert(v.take(v.len() as int) =~= v);
        PoolStats {
            total_connections: total,
            idle_connections: total - in_use,
            in_use_connections: in_use,
            servers_connected: self.slots.len(),
        }
    }

    /// Registers the private key of an id, in place of any earlier one.
    pub fn register_key(&mut self, key_id: u128, private_key: String)
        requires
            old(self).wf(),
        ensures
            final(self).wf(),
            key_contents(final(self).private_keys) == key_contents(old(self).private_keys).insert(
                key_id,
                private_key@,
            ),
            final(self).view() == old(self).view(),
            final(self).config == old(self).config,
    {
        key_map_insert(&mut self.private_keys, key_id, private_key);
    }

    /// The private key registered for a server's key id, if any.
    pub fn private_key_for(&self, server: &Server) -> (r: Option<String>)
        requires
            self.wf(),
        ensures
            crate::providers::opt_text(r) == match server.private_key_id {
                Some(id) => key_lookup(key_contents(self.private_keys), id),
                None => None,
            },
    {
        match server.private_key_id {
            Some(id) => key_map_get(&self.private_keys, id),
            None => None,
        }
    }

    /// Hands a connection back: idle again, last used now.
    pub fn release(&mut self, key: &ServerKey, conn_id: u64, now: i64)
        requires
            old(self).wf(),
        ensures
            final(self).wf(),
            final(self).view() == match slot_index(old(self).view(), key_view(*key)) {
                Some(i) => old(self).view().update(
                    i,
                    (key_view(*key), released(old(self).view()[i].1, conn_id, now)),
                ),
                None => old(self).view(),
            },
            final(self).config == old(self).config,
            final(self).private_keys == old(self).private_keys,
    {
        let ghost v = self.view();
        match self.find_slot(key) {
            Some(i) => {
                let mut slot = self.slots.remove(i);
                let mut conns: Vec<PooledConnection> = Vec::new();
                let mut j: usize = 0;
                while j < slot.connections.len()
                    invariant
                        j <= slot.connections@.len(),
                        conns@ =~= released(slot.connections@, conn_id, now).take(j as int),
                    decreases slot.connections@.len() - j,
                {
                    let c = slot.connections[j];
                    if c.conn_id == conn_id {
                        conns.push(
                            PooledConnection {
                                conn_id: c.conn_id,
                                created_at_ms: c.created_at_ms,
                                last_used_ms: now,
                                in_use: false,
                            },
                        );
                    } else {
                        conns.push(c);
                    }
                    j = j + 1;
                }
                let ghost cs = slot.connections@;
                assert(conns@ =~= released(cs, conn_id, now));
                slot.connections = conns;
                self.slots.insert(i, slot);
                proof {
                    assert(self.view() =~= v.update(
                        i as int,
                        (key_view(*key), released(v[i as int].1, conn_id, now)),
                    ));
                    lemma_total_update(v, i as int, (key_view(*key), released(v[i as int].1, conn_id, now)));
                }
            },
            None => {},
        }
    }
}

} // verus!

verus! {

/// A cleanup never closes a connection in use: it stays, under its server.
pub proof fn law_cleanup_keeps_in_use(
    v: Seq<((Seq<char>, u16, Seq<char>), Seq<PooledConnection>)>,
    now: i64,
    timeout: u64,
    i: int,
    j: int,
)
    requires
        0 <= i < v.len(),
        0 <= j < v[i].1.len(),
        v[i].1[j].in_use,
    ensures
        exists|k: int|
            0 <= k < cleaned(v, now, timeout).len() && cleaned(v, now, timeout)[k].0 == v[i].0
                && cleaned(v, now, timeout)[k].1.contains(v[i].1[j]),
    decreases v.len(),
{
    let d = v.drop_last();
    let c = cleaned(v, now, timeout);
    if i < v.len() - 1 {
        law_cleanup_keeps_in_use(d, now, timeout, i, j);
        let k = choose|k: int|
            0 <= k < cleaned(d, now, timeout).len() && cleaned(d, now, timeout)[k].0 == d[i].0
                && cleaned(d, now, timeout)[k].1.contains(d[i].1[j]);
        assert(c[k] == cleaned(d, now, timeout)[k]);
    } else {
        lemma_kept_contains(v.last().1, now, timeout, j);
        let kept = kept_by_cleanup(v.last().1, now, timeout);
        assert(c.last() == (v.last().0, kept));
    }
}

/// A connection in use is among those a cleanup keeps.
pub proof fn lemma_kept_contains(cs: Seq<PooledConnection>, now: i64, timeout: u64, j: int)
    requires
        0 <= j < cs.len(),
        cs[j].in_use,
    ensures
        kept_by_cleanup(cs, now, timeout).contains(cs[j]),
        kept_by_cleanup(cs, now, timeout).len() > 0,
    decreases cs.len(),
{
    let k = kept_by_cleanup(cs, now, timeout);
    if j < cs.len() - 1 {
        lemma_kept_contains(cs.drop_last(), now, timeout, j);
        let rest = kept_by_cleanup(cs.drop_last(), now, timeout);
        let w = choose|w: int| 0 <= w < rest.len() && rest[w] == cs[j];
        assert(k[w] == cs[j]);
    } else {
        assert(k.last() == cs[j]);
    }
}

/// After a cleanup every server has a connection, and every connection is
/// in use or has not been idle for too long.
pub proof fn law_cleanup_leaves_no_stale(
    v: Seq<((Seq<char>, u16, Seq<char>), Seq<PooledConnection>)>,
    now: i64,
    timeout: u64,
)
    ensures
        forall|k: int|
            0 <= k < cleaned(v, now, timeout).len() ==> (#[trigger] cleaned(v, now, timeout)[k]).1.len() > 0,
        forall|k: int, l: int|
            0 <= k < cleaned(v, now, timeout).len() && 0 <= l < cleaned(v, now, timeout)[k].1.len()
                ==> (#[trigger] cleaned(v, now, timeout)[k].1[l]).in_use || !expired(
                cleaned(v, now, timeout)[k].1[l],
                now,
                timeout,
            ),
    decreases v.len(),
{
    if v.len() > 0 {
        law_cleanup_leaves_no_stale(v.drop_last(), now, timeout);
        lemma_kept_fresh(v.last().1, now, timeout);
        let c = cleaned(v, now, timeout);
        let rest = cleaned(v.drop_last(), now, timeout);
        let kept = kept_by_cleanup(v.last().1, now, timeout);
        assert forall|k: int| 0 <= k < c.len() implies (#[trigger] c[k]).1.len() > 0 by {
            if k < rest.len() {
                assert(c[k] == rest[k]);
            }
        }
        assert forall|k: int, l: int| 0 <= k < c.len() && 0 <= l < c[k].1.len() implies (
        #[trigger] c[k].1[l]).in_use || !expired(c[k].1[l], now, timeout) by {
            if k < rest.len() {
                assert(c[k] == rest[k]);
            } else {
                assert(c[k].1 == kept);
            }
        }
    }
}

/// What a cleanup keeps of a list is in use or not idle for too long.
pub proof fn lemma_kept_fresh(cs: Seq<PooledConnection>, now: i64, timeout: u64)
    ensures
        forall|l: int|
            0 <= l < kept_by_cleanup(cs, now, timeout).len() ==> (#[trigger] kept_by_cleanup(
                cs,
                now,
                timeout,
            )[l]).in_use || !expired(kept_by_cleanup(cs, now, timeout)[l], now, timeout),
    decreases cs.len(),
{
    if cs.len() > 0 {
        lemma_kept_fresh(cs.drop_last(), now, timeout);
        let k = kept_by_cleanup(cs, now, timeout);
        let rest = kept_by_cleanup(cs.drop_last(), now, timeout);
        assert forall|l: int| 0 <= l < k.len() implies (#[trigger] k[l]).in_use || !expired(
            k[l],
            now,
            timeout,
        ) by {
            if l < rest.len() {
                assert(k[l] == rest[l]);
            }
        }
    }
}

/// Handing back a connection just taken leaves the server's list as it
/// was before the taking, but for the time of last use.
pub proof fn law_release_undoes_take(cs: Seq<PooledConnection>, j: int, now: i64, later: i64)
    requires
        0 <= j < cs.len(),
        !cs[j].in_use,
        forall|a: int, b: int| 0 <= a < b < cs.len() ==> cs[a].conn_id != cs[b].conn_id,
    ensures
        released(taken(cs, j, now), cs[j].conn_id, later) == cs.update(
            j,
            PooledConnection { last_used_ms: later, ..cs[j] },
        ),
{
    let r = released(taken(cs, j, now), cs[j].conn_id, later);
    let e = cs.update(j, PooledConnection { last_used_ms: later, ..cs[j] });
    assert forall|l: int| 0 <= l < cs.len() implies r[l] == e[l] by {
        if l != j {
            if l < j {
                assert(cs[l].conn_id != cs[j].conn_id);
            } else {
                assert(cs[j].conn_id != cs[l].conn_id);
            }
        }
    }
    assert(r =~= e);
}

} // verus!
