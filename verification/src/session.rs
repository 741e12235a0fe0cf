//! Session management: the active WebSocket connections of charge points,
//! kept in a `DashMap` by charge point id.
//!
//! Times are nanoseconds since the Unix epoch, handed in by the caller.
use vstd::prelude::*;

use crate::text::has_prefix;

verus! {

/// Nanoseconds per second.
pub const NANOS_PER_SECOND: i128 = 1_000_000_000;

/// Whole seconds in a span of `nanos` nanoseconds, rounded toward zero
/// (as `TimeDelta::num_seconds`).
pub open spec fn whole_seconds(nanos: int) -> int {
    if nanos >= 0 {
        nanos / 1_000_000_000
    } else {
        -((-nanos) / 1_000_000_000)
    }
}

/// `tokio::sync::mpsc::UnboundedSender`, the channel to a connection's writer task.
#[verifier::external_type_specification]
#[verifier::external_body]
#[verifier::reject_recursive_types(T)]
pub struct ExUnboundedSender<T>(tokio::sync::mpsc::UnboundedSender<T>);

/// The channel that carries messages to one charge point.
pub type Outbox = tokio::sync::mpsc::UnboundedSender<String>;

/// An active WebSocket connection to a charge point.
pub struct Connection {
    /// Charge point id.
    pub charge_point_id: String,
    /// Channel to send messages to the charge point.
    pub sender: Outbox,
    /// When the connection was established.
    pub connected_at: i64,
    /// Last activity.
    pub last_activity: i64,
}

impl Connection {
    /// A connection established at `now`.
    pub fn new(charge_point_id: String, sender: Outbox, now: i64) -> (r: Self)
        ensures
            r.charge_point_id@ == charge_point_id@,
            r.sender == sender,
            r.connected_at == now,
            r.last_activity == now,
    {
        Connection { charge_point_id, sender, connected_at: now, last_activity: now }
    }

    /// Record activity at `now`.
    pub fn touch(&mut self, now: i64)
        ensures
            final(self).last_activity == now,
            final(self).connected_at == old(self).connected_at,
            final(self).charge_point_id == old(self).charge_point_id,
            final(self).sender == old(self).sender,
    {
        self.last_activity = now;
    }

    /// Whether more than `timeout_seconds` whole seconds have passed between
    /// the last activity and `now`.
    pub fn is_stale(&self, timeout_seconds: i64, now: i64) -> (r: bool)
        ensures
            r == (whole_seconds(now - self.last_activity) > timeout_seconds),
    {
        let d: i128 = now as i128 - self.last_activity as i128;
        let secs: i128 = if d >= 0 {
            d / NANOS_PER_SECOND
        } else {
            0 - ((0 - d) / NANOS_PER_SECOND)
        };
        secs > timeout_seconds as i128
    }
}

/// The map of sessions by charge point id.
pub type SessionMap = dashmap::DashMap<String, Connection>;

/// The connections a session map holds, by charge point id.
pub uninterp spec fn session_table(m: SessionMap) -> Map<Seq<char>, Connection>;

/// No session at all.
pub open spec fn no_sessions() -> Map<Seq<char>, Connection> {
    Map::empty()
}

/// `DashMap::new`: an empty map.
#[verifier::external_body]
fn sessions_new() -> (r: SessionMap)
    ensures
        session_table(r) == no_sessions(),
{
    dashmap::DashMap::new()
}

/// `DashMap::insert`: store `c` under `id`, replacing what was there.
#[verifier::external_body]
fn sessions_insert(m: &mut SessionMap, id: String, c: Connection)
    ensures
        session_table(*final(m)) == session_table(*old(m)).insert(id@, c),
{
    m.insert(id, c);
}

/// `DashMap::remove`: take out and give back what is stored under `id`.
#[verifier::external_body]
fn sessions_remove(m: &mut SessionMap, id: &str) -> (r: Option<Connection>)
    ensures
        session_table(*final(m)) == session_table(*old(m)).remove(id@),
        r is Some <==> session_table(*old(m)).dom().contains(id@),
        r matches Some(c) ==> c == session_table(*old(m))[id@],
{
    match m.remove(id) {
        Some((_, c)) => Some(c),
        None => None,
    }
}

/// `DashMap::contains_key`.
#[verifier::external_body]
fn sessions_contain(m: &SessionMap, id: &str) -> (r: bool)
    ensures
        r == session_table(*m).dom().contains(id@),
{
    m.contains_key(id)
}

/// `DashMap::len`: the number of sessions.
#[verifier::external_body]
fn sessions_len(m: &SessionMap) -> (r: usize)
    ensures
        r == session_table(*m).dom().len(),
{
    m.len()
}

/// `DashMap::iter`, each entry's key copied: every id once, in the map's order.
#[verifier::external_body]
fn sessions_ids(m: &SessionMap) -> (r: Vec<String>)
    ensures
        r@.map_values(|s: String| s@).no_duplicates(),
        r@.map_values(|s: String| s@).to_set() == session_table(*m).dom(),
{
    let mut out = Vec::new();
    for entry in m.iter() {
        out.push(entry.key().clone());
    }
    out
}

/// `DashMap::get`, then `UnboundedSender::send` of `message` to the
/// connection found: `None` when there is none under `id`, else the
/// outcome of the send (it fails once the receiving task has ended, which
/// nothing here can see), the error as its `Display` text.
#[verifier::external_body]
fn sessions_send(m: &SessionMap, id: &str, message: String) -> (r: Option<Result<(), String>>)
    ensures
        r is Some <==> session_table(*m).dom().contains(id@),
{
    match m.get(id) {
        Some(conn) => match conn.value().sender.send(message) {
            Ok(()) => Some(Ok(())),
            Err(e) => Some(Err(e.to_string())),
        },
        None => None,
    }
}

/// Manages active WebSocket sessions, at most one per charge point id.
pub struct SessionManager {
    connections: SessionMap,
}

/// What is known of a registered session: its sender, when it connected and
/// when it was last active.
pub type SessionView = (Outbox, i64, i64);

/// The abstract value of a connection.
pub open spec fn session_of(c: Connection) -> SessionView {
    (c.sender, c.connected_at, c.last_activity)
}

impl View for SessionManager {
    type V = Map<Seq<char>, SessionView>;

    closed spec fn view(&self) -> Map<Seq<char>, SessionView> {
        session_table(self.connections).map_values(|c: Connection| session_of(c))
    }
}

impl SessionManager {
    #[verifier::type_invariant]
    closed spec fn ids_match(&self) -> bool {
        forall|k: Seq<char>|
            #[trigger] session_table(self.connections).dom().contains(k) ==> session_table(
                self.connections,
            )[k].charge_point_id@ == k
    }

    /// No sessions.
    pub fn new() -> (r: Self)
        ensures
            r@ == Map::<Seq<char>, SessionView>::empty(),
    {
        let r = SessionManager { connections: sessions_new() };
        assert(r@ =~= Map::<Seq<char>, SessionView>::empty());
        r
    }

    /// Register a connection established at `now`, replacing any previous
    /// session of the same charge point; gives back the id.
    pub fn register(&mut self, charge_point_id: String, sender: Outbox, now: i64) -> (r: String)
        ensures
            r@ == charge_point_id@,
            final(self)@ == old(self)@.insert(charge_point_id@, (sender, now, now)),
    {
        proof {
            use_type_invariant(&*self);
        }
        let id = charge_point_id.clone();
        let connection = Connection::new(charge_point_id, sender, now);
        let mut table = sessions_new();
        std::mem::swap(&mut table, &mut self.connections);
        let ghost before = session_table(table);
        sessions_insert(&mut table, id.clone(), connection);
        self.connections = table;
        proof {
            assert(self@ =~= old(self)@.insert(id@, (sender, now, now)));
        }
        id
    }

    /// Unregister a connection; gives back whether there was one.
    pub fn unregister(&mut self, charge_point_id: &str) -> (removed: bool)
        ensures
            removed == old(self)@.dom().contains(charge_point_id@),
            final(self)@ == old(self)@.remove(charge_point_id@),
    {
        proof {
            use_type_invariant(&*self);
        }
        let mut table = sessions_new();
        std::mem::swap(&mut table, &mut self.connections);
        let r = sessions_remove(&mut table, charge_point_id);
        self.connections = table;
        proof {
            assert(self@ =~= old(self)@.remove(charge_point_id@));
        }
        r.is_some()
    }

    /// Send a message to a charge point: an error when it is not connected,
    /// or the error of its channel when the connection's task has ended.
    pub fn send_to(&self, charge_point_id: &str, message: String) -> (r: Result<(), String>)
        ensures
            !self@.dom().contains(charge_point_id@) ==> (r matches Err(m) && m@
                == "Charge point not connected: "@ + charge_point_id@),
            self@.dom().contains(charge_point_id@) ==> (r matches Err(m) ==> has_prefix(
                m@,
                "Failed to send message: "@,
            )),
    {
        match sessions_send(&self.connections, charge_point_id, message) {
            None => {
                let mut m = "Charge point not connected: ".to_owned();
                m.append(charge_point_id);
                Err(m)
            },
            Some(Ok(())) => Ok(()),
            Some(Err(e)) => {
                let mut m = "Failed to send message: ".to_owned();
                m.append(e.as_str());
                proof {
                    reveal_strlit("Failed to send message: ");
                    assert(m@.subrange(0, 24) =~= "Failed to send message: "@);
                }
                Err(m)
            },
        }
    }

    /// Update the activity time of a connection to `now`.
    pub fn touch(&mut self, charge_point_id: &str, now: i64)
        ensures
            old(self)@.dom().contains(charge_point_id@) ==> final(self)@ == old(self)@.insert(
                charge_point_id@,
                (old(self)@[charge_point_id@].0, old(self)@[charge_point_id@].1, now),
            ),
            !old(self)@.dom().contains(charge_point_id@) ==> final(self)@ == old(self)@,
    {
        proof {
            use_type_invariant(&*self);
        }
        let mut table = sessions_new();
        std::mem::swap(&mut table, &mut self.connections);
        let ghost before = session_table(table);
        match sessions_remove(&mut table, charge_point_id) {
            Some(mut conn) => {
                conn.touch(now);
                let key = conn.charge_point_id.clone();
                sessions_insert(&mut table, key, conn);
                self.connections = table;
                proof {
                    assert(session_table(self.connections) =~= before.insert(charge_point_id@, conn));
                    assert(self@ =~= old(self)@.insert(
                        charge_point_id@,
                        (old(self)@[charge_point_id@].0, old(self)@[charge_point_id@].1, now),
                    ));
                }
            },
            None => {
                self.connections = table;
                proof {
                    assert(session_table(self.connections) =~= before);
                }
            },
        }
    }

    /// Whether a charge point is connected.
    pub fn is_connected(&self, charge_point_id: &str) -> (r: bool)
        ensures
            r == self@.dom().contains(charge_point_id@),
    {
        sessions_contain(&self.connections, charge_point_id)
    }

    /// The ids of the connected charge points, each once.
    pub fn connected_ids(&self) -> (r: Vec<String>)
        ensures
            r@.map_values(|s: String| s@).no_duplicates(),
            r@.map_values(|s: String| s@).to_set() == self@.dom(),
    {
        let r = sessions_ids(&self.connections);
        proof {
            assert(self@.dom() =~= session_table(self.connections).dom());
        }
        r
    }

    /// The number of active connections.
    pub fn connection_count(&self) -> (r: usize)
        ensures
            r == self@.dom().len(),
    {
        let n = sessions_len(&self.connections);
        proof {
            assert(self@.dom() =~= session_table(self.connections).dom());
        }
        n
    }

    /// Send a message to every connected charge point, ignoring failures.
    pub fn broadcast(&self, message: &str) {
        let ids = sessions_ids(&self.connections);
        for i in 0..ids.len() {
            let _ = self.send_to(ids[i].as_str(), message.to_owned());
        }
    }
}

/// After a charge point registers it is connected, and it stays connected
/// until it unregisters; sessions of other charge points are untouched.
pub proof fn law_register_unregister(
    sessions: Map<Seq<char>, SessionView>,
    id: Seq<char>,
    other: Seq<char>,
    sender: Outbox,
    now: i64,
)
    requires
        other != id,
    ensures
        sessions.insert(id, (sender, now, now)).dom().contains(id),
        !sessions.insert(id, (sender, now, now)).remove(id).dom().contains(id),
        sessions.insert(id, (sender, now, now)).remove(id).dom().contains(other)
            == sessions.dom().contains(other),
{
}

} // verus!
