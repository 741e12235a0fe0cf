//! Per-client sliding-window rate limiting of WebSocket connections.
//!
//! Tracks connection timestamps per client key (the peer IP address) and
//! rejects a new connection when the number of connections admitted within
//! the last 60 seconds has reached the configured limit.
use vstd::prelude::*;


verus! {

/// Length of the sliding window, in nanoseconds (the precision of `Instant`).
pub const WINDOW_NANOS: u64 = 60_000_000_000;

/// Nanoseconds from `t` to `now`, zero when `t` is not before `now`
/// (as `Instant::duration_since` saturates).
pub open spec fn elapsed(now: u64, t: u64) -> nat {
    if t <= now {
        (now - t) as nat
    } else {
        0
    }
}

/// The timestamps of `stamps` that lie within the window ending at `now`.
pub open spec fn recent(stamps: Seq<u64>, now: u64) -> Seq<u64> {
    stamps.filter(|t: u64| elapsed(now, t) < WINDOW_NANOS)
}

/// `dashmap::DashMap`, the concurrent map the limiter keeps its times in.
#[verifier::external_type_specification]
#[verifier::external_body]
#[verifier::reject_recursive_types(K)]
#[verifier::reject_recursive_types(V)]
#[verifier::reject_recursive_types(S)]
pub struct ExDashMap<K, V, S>(dashmap::DashMap<K, V, S>);

/// The limiter's map: admission times in nanoseconds per client key.
pub type TimesMap = dashmap::DashMap<String, Vec<u64>>;

/// The admission times each client key holds in a limiter's map.
pub uninterp spec fn admission_times(m: TimesMap) -> Map<Seq<char>, Seq<u64>>;

/// No client holds any admission time.
pub open spec fn no_times() -> Map<Seq<char>, Seq<u64>> {
    Map::empty()
}

/// `DashMap::new`: an empty map.
#[verifier::external_body]
fn times_new() -> (r: TimesMap)
    ensures
        admission_times(r) == no_times(),
{
    dashmap::DashMap::new()
}

/// `DashMap::get` and a copy of the times found: those stored under `key`,
/// none when the key is absent.
#[verifier::external_body]
fn times_get(m: &TimesMap, key: &str) -> (r: Vec<u64>)
    ensures
        r@ == if admission_times(*m).dom().contains(key@) {
            admission_times(*m)[key@]
        } else {
            Seq::empty()
        },
{
    match m.get(key) {
        Some(entry) => entry.value().clone(),
        None => Vec::new(),
    }
}

/// `DashMap::insert`: store `times` under `key`, replacing what was there.
#[verifier::external_body]
fn times_insert(m: &mut TimesMap, key: String, times: Vec<u64>)
    ensures
        admission_times(*final(m)) == admission_times(*old(m)).insert(key@, times@),
{
    m.insert(key, times);
}

/// Simple per-client sliding-window rate limiter for WebSocket connections.
pub struct WsRateLimiter {
    /// Admission times per client key, in nanoseconds.
    connections: TimesMap,
    /// Maximum connections per minute per client.
    max_per_minute: u32,
}

impl View for WsRateLimiter {
    type V = Map<Seq<char>, Seq<u64>>;

    closed spec fn view(&self) -> Map<Seq<char>, Seq<u64>> {
        admission_times(self.connections)
    }
}

impl WsRateLimiter {
    /// The admission timestamps recorded for `key` (empty for an unknown key).
    pub open spec fn stamps_of(&self, key: Seq<char>) -> Seq<u64> {
        if self@.dom().contains(key) {
            self@[key]
        } else {
            Seq::empty()
        }
    }

    /// The configured limit.
    pub closed spec fn limit(&self) -> nat {
        self.max_per_minute as nat
    }

    #[verifier::type_invariant]
    closed spec fn inv(&self) -> bool {
        forall|k: Seq<char>|
            #[trigger] admission_times(self.connections).dom().contains(k) ==> admission_times(
                self.connections,
            )[k].len() <= self.max_per_minute
    }

    /// A limiter that admits at most `max_per_minute` connections per client
    /// within any window.
    pub fn new(max_per_minute: u32) -> (r: Self)
        ensures
            r@ == Map::<Seq<char>, Seq<u64>>::empty(),
            r.limit() == max_per_minute,
    {
        WsRateLimiter { connections: times_new(), max_per_minute }
    }

    /// Check whether a new connection from `key` at time `now_ns` is allowed.
    /// Timestamps older than the window are forgotten; the connection is
    /// allowed, and recorded, exactly when fewer than the limit remain.
    pub fn check(&mut self, key: &str, now_ns: u64) -> (allowed: bool)
        ensures
            allowed == (recent(old(self).stamps_of(key@), now_ns).len() < old(self).limit()),
            final(self).limit() == old(self).limit(),
            final(self)@ == old(self)@.insert(
                key@,
                if allowed {
                    recent(old(self).stamps_of(key@), now_ns).push(now_ns)
                } else {
                    recent(old(self).stamps_of(key@), now_ns)
                },
            ),
            final(self).stamps_of(key@).len() <= final(self).limit(),
            (allowed, final(self).stamps_of(key@)) == check_step(
                old(self).stamps_of(key@),
                now_ns,
                old(self).limit(),
            ),
    {
        proof {
            use_type_invariant(&*self);
        }
        let old_times = times_get(&self.connections, key);
        let ghost before = old_times@;
        let mut kept: Vec<u64> = Vec::new();
        let n = old_times.len();
        for i in 0..n
            invariant
                n == before.len(),
                before == old_times@,
                kept@ == recent(before.take(i as int), now_ns),
        {
            proof {
                assert(before.take(i + 1) =~= before.take(i as int).push(before[i as int]));
                lemma_recent_push(before.take(i as int), before[i as int], now_ns);
            }
            let t = old_times[i];
            let elapsed_ns: u64 = if t <= now_ns {
                now_ns - t
            } else {
                0
            };
            if elapsed_ns < WINDOW_NANOS {
                kept.push(t);
            }
        }
        proof {
            assert(before.take(n as int) =~= before);
            lemma_recent_len(before, now_ns);
        }
        let allowed = kept.len() < self.max_per_minute as usize;
        if allowed {
            kept.push(now_ns);
        }
        let mut connections = times_new();
        std::mem::swap(&mut connections, &mut self.connections);
        times_insert(&mut connections, key.to_owned(), kept);
        self.connections = connections;
        allowed
    }
}

proof fn lemma_recent_len(s: Seq<u64>, now: u64)
    ensures
        recent(s, now).len() <= s.len(),
    decreases s.len(),
{
    if s.len() == 0 {
        reveal(Seq::filter);
    } else {
        let p = s.drop_last();
        assert(p.push(s.last()) =~= s);
        lemma_recent_len(p, now);
        lemma_recent_push(p, s.last(), now);
    }
}

/// One check of a client on views: whether it is admitted at `now` and the
/// timestamps kept afterwards (what `check` does to the client's entry).
pub open spec fn check_step(stamps: Seq<u64>, now: u64, limit: nat) -> (bool, Seq<u64>) {
    let r = recent(stamps, now);
    if r.len() < limit {
        (true, r.push(now))
    } else {
        (false, r)
    }
}

/// The decisions of successive checks of one client at `times`, starting
/// with no history, and the timestamps kept after the last.
pub open spec fn decisions(times: Seq<u64>, limit: nat) -> (Seq<bool>, Seq<u64>)
    decreases times.len(),
{
    if times.len() == 0 {
        (Seq::empty(), Seq::empty())
    } else {
        let prev = decisions(times.drop_last(), limit);
        let step = check_step(prev.1, times.last(), limit);
        (prev.0.push(step.0), step.1)
    }
}

/// The times of `times` whose check was admitted according to `flags`.
pub open spec fn admitted(times: Seq<u64>, flags: Seq<bool>) -> Seq<u64>
    decreases times.len(),
{
    if times.len() == 0 {
        Seq::empty()
    } else {
        let a = admitted(times.drop_last(), flags);
        if flags[times.len() - 1] {
            a.push(times.last())
        } else {
            a
        }
    }
}

/// However a client's connection attempts are spread over time (in the
/// order they happen), no window of 60 seconds ending at an attempt holds
/// more admitted connections than the limit.
pub proof fn law_admissions_per_window(times: Seq<u64>, limit: nat, j: int)
    requires
        forall|a: int, b: int| 0 <= a <= b < times.len() ==> times[a] <= times[b],
        0 <= j < times.len(),
    ensures
        recent(admitted(times.take(j + 1), decisions(times, limit).0), times[j]).len() <= limit,
{
    let pre = times.take(j + 1);
    lemma_decisions_prefix(times, limit, j + 1);
    let flags = decisions(times, limit).0;
    let pflags = decisions(pre, limit).0;
    lemma_decisions_len(pre, limit);
    lemma_admitted_same_flags(pre, flags, pflags);
    lemma_decisions_window(pre, limit);
}

/// Each connection attempt of a client at time `t` is admitted exactly when
/// fewer than the limit of its earlier admitted attempts lie in the window
/// `(t - 60 s, t]`; with a limit of zero nothing is ever admitted.
pub proof fn law_admission_rule(times: Seq<u64>, limit: nat, j: int)
    requires
        forall|a: int, b: int| 0 <= a <= b < times.len() ==> times[a] <= times[b],
        0 <= j < times.len(),
    ensures
        decisions(times, limit).0[j] == (recent(
            admitted(times.take(j), decisions(times, limit).0),
            times[j],
        ).len() < limit),
        limit == 0 ==> !decisions(times, limit).0[j],
{
    let pre = times.take(j + 1);
    lemma_decisions_prefix(times, limit, j + 1);
    lemma_decisions_len(pre, limit);
    let flags = decisions(times, limit).0;
    let pflags = decisions(pre, limit).0;
    lemma_decisions_window(pre, limit);
    assert(pre.drop_last() =~= times.take(j));
    lemma_admitted_same_flags(times.take(j), flags, pflags);
}

/// A check of one client leaves the kept times of every other client as
/// they were.
pub proof fn law_other_clients_unaffected(
    kept: Map<Seq<char>, Seq<u64>>,
    key: Seq<char>,
    stamps: Seq<u64>,
    other: Seq<char>,
)
    requires
        other != key,
    ensures
        kept.insert(key, stamps).dom().contains(other) == kept.dom().contains(other),
        kept.dom().contains(other) ==> kept.insert(key, stamps)[other] == kept[other],
{
}

proof fn lemma_recent_push(s: Seq<u64>, x: u64, now: u64)
    ensures
        recent(s.push(x), now) == if elapsed(now, x) < WINDOW_NANOS {
            recent(s, now).push(x)
        } else {
            recent(s, now)
        },
{
    reveal(Seq::filter);
    assert(s.push(x).drop_last() =~= s);
}

proof fn lemma_recent_again(s: Seq<u64>, a: u64, b: u64)
    requires
        a <= b,
        forall|i: int| 0 <= i < s.len() ==> s[i] <= a,
    ensures
        recent(recent(s, a), b) == recent(s, b),
    decreases s.len(),
{
    if s.len() > 0 {
        let p = s.drop_last();
        let x = s.last();
        assert(p.push(x) =~= s);
        lemma_recent_again(p, a, b);
        lemma_recent_push(p, x, a);
        lemma_recent_push(p, x, b);
        if elapsed(a, x) < WINDOW_NANOS {
            lemma_recent_push(recent(p, a), x, b);
        }
    } else {
        reveal(Seq::filter);
    }
}

proof fn lemma_admitted_bounded(times: Seq<u64>, flags: Seq<bool>, bound: u64)
    requires
        forall|i: int| 0 <= i < times.len() ==> times[i] <= bound,
    ensures
        forall|i: int| 0 <= i < admitted(times, flags).len() ==> admitted(times, flags)[i] <= bound,
    decreases times.len(),
{
    if times.len() > 0 {
        let p = times.drop_last();
        assert forall|i: int| 0 <= i < p.len() implies p[i] <= bound by {
            assert(p[i] == times[i]);
        }
        lemma_admitted_bounded(p, flags, bound);
        let a = admitted(p, flags);
        assert(times.last() == times[times.len() - 1]);
        assert forall|i: int| 0 <= i < admitted(times, flags).len() implies admitted(times, flags)[i]
            <= bound by {
            if flags[times.len() - 1] && i == a.len() {
            } else {
                assert(admitted(times, flags)[i] == a[i]);
            }
        }
    }
}

proof fn lemma_admitted_same_flags(times: Seq<u64>, f: Seq<bool>, g: Seq<bool>)
    requires
        f.len() >= times.len(),
        g.len() >= times.len(),
        forall|i: int| 0 <= i < times.len() ==> f[i] == g[i],
    ensures
        admitted(times, f) == admitted(times, g),
    decreases times.len(),
{
    if times.len() > 0 {
        lemma_admitted_same_flags(times.drop_last(), f, g);
    }
}

proof fn lemma_decisions_len(times: Seq<u64>, limit: nat)
    ensures
        decisions(times, limit).0.len() == times.len(),
    decreases times.len(),
{
    if times.len() > 0 {
        lemma_decisions_len(times.drop_last(), limit);
    }
}

proof fn lemma_decisions_prefix(times: Seq<u64>, limit: nat, n: int)
    requires
        0 <= n <= times.len(),
    ensures
        decisions(times, limit).0.len() == times.len(),
        forall|i: int| 0 <= i < n ==> decisions(times, limit).0[i] == decisions(times.take(n), limit).0[i],
    decreases times.len(),
{
    lemma_decisions_len(times, limit);
    lemma_decisions_len(times.take(n), limit);
    if n < times.len() {
        let p = times.drop_last();
        assert(p.take(n) =~= times.take(n));
        lemma_decisions_prefix(p, limit, n);
        lemma_decisions_len(p, limit);
    } else {
        assert(times.take(n) =~= times);
    }
}

/// What the checks keep is the admitted times within the window of the last
/// check, and each check admits exactly when fewer than the limit of the
/// earlier admitted times lie within its window.
proof fn lemma_decisions_window(times: Seq<u64>, limit: nat)
    requires
        times.len() > 0,
        forall|a: int, b: int| 0 <= a <= b < times.len() ==> times[a] <= times[b],
    ensures
        decisions(times, limit).0.len() == times.len(),
        decisions(times, limit).1 == recent(
            admitted(times, decisions(times, limit).0),
            times.last(),
        ),
        recent(admitted(times, decisions(times, limit).0), times.last()).len() <= limit,
        decisions(times, limit).0[times.len() - 1] == (recent(
            admitted(times.drop_last(), decisions(times, limit).0),
            times.last(),
        ).len() < limit),
    decreases times.len(),
{
    let n = times.len();
    let p = times.drop_last();
    let t = times.last();
    let prev = decisions(p, limit);
    let flags = decisions(times, limit).0;
    lemma_decisions_len(p, limit);
    lemma_decisions_len(times, limit);
    assert(flags == prev.0.push(check_step(prev.1, t, limit).0));
    assert forall|i: int| 0 <= i < p.len() implies flags[i] == prev.0[i] by {}
    lemma_admitted_same_flags(p, flags, prev.0);
    let adm_p = admitted(p, prev.0);
    // the times kept before this check are the admitted earlier ones in the
    // window of the previous check, which contains this check's window
    let kept_before: Seq<u64> = if p.len() == 0 {
        Seq::empty()
    } else {
        recent(adm_p, p.last())
    };
    if p.len() > 0 {
        lemma_decisions_window(p, limit);
        assert(prev.1 == kept_before);
        lemma_admitted_bounded(p, prev.0, p.last());
        assert(p.last() <= t);
        lemma_recent_again(adm_p, p.last(), t);
    } else {
        assert(prev.1 == Seq::<u64>::empty());
        reveal(Seq::filter);
        assert(adm_p == Seq::<u64>::empty());
    }
    assert(recent(prev.1, t) == recent(adm_p, t));
    assert(admitted(times, flags) == if flags[n - 1] {
        admitted(p, flags).push(t)
    } else {
        admitted(p, flags)
    });
    lemma_recent_push(adm_p, t, t);
}

} // verus!
