//! Charging transactions: listing with filters and pages, and statistics.
use vstd::prelude::*;

use crate::text::{lowercase_of, text_eq, to_lower};

verus! {

/// An instant: whole seconds since the Unix epoch and the nanoseconds past them.
#[derive(Clone, Copy, Debug, PartialEq, Eq, Structural)]
pub struct Timestamp {
    pub secs: i64,
    pub nanos: u32,
}

/// The nanoseconds since the epoch of an instant.
pub open spec fn nanos_of(t: Timestamp) -> int {
    t.secs * 1_000_000_000 + t.nanos
}

impl Timestamp {
    /// Whether `self` is strictly earlier than `other`.
    pub fn is_before(&self, other: &Timestamp) -> (r: bool)
        requires
            self.nanos < 1_000_000_000,
            other.nanos < 1_000_000_000,
        ensures
            r == (nanos_of(*self) < nanos_of(*other)),
    {
        self.secs < other.secs || (self.secs == other.secs && self.nanos < other.nanos)
    }
}

/// Transaction status.
#[derive(Clone, Copy, Debug, PartialEq, Eq, Structural)]
pub enum TransactionStatus {
    Active,
    Completed,
    Failed,
}

/// The lowercase name of a status, as the status filter compares it.
pub open spec fn status_text(s: TransactionStatus) -> Seq<char> {
    match s {
        TransactionStatus::Active => "active"@,
        TransactionStatus::Completed => "completed"@,
        TransactionStatus::Failed => "failed"@,
    }
}

/// What listing and statistics read of a transaction.
pub struct TransactionInfo {
    pub id: i32,
    pub status: TransactionStatus,
    pub started_at: Timestamp,
    /// Energy consumed in Wh, once known.
    pub energy_wh: Option<i32>,
}

/// Filters of a transaction listing.
pub struct TransactionFilter {
    /// Status name, compared without regard to ASCII case.
    pub status: Option<String>,
    pub from_date: Option<Timestamp>,
    pub to_date: Option<Timestamp>,
}

/// Whether a transaction passes the filter: its status equals the requested
/// one ignoring ASCII case, and it did not start before `from_date` or after
/// `to_date`.
pub open spec fn passes(t: TransactionInfo, status_lower: Option<Seq<char>>, from: Option<Timestamp>, to: Option<Timestamp>) -> bool {
    &&& (status_lower matches Some(s) ==> s == status_text(t.status))
    &&& (from matches Some(f) ==> !(nanos_of(t.started_at) < nanos_of(f)))
    &&& (to matches Some(u) ==> !(nanos_of(u) < nanos_of(t.started_at)))
}

/// The ASCII-lowercase form of a text (`to_ascii_lowercase`).
pub open spec fn ascii_lower(s: Seq<char>) -> Seq<char> {
    s.map_values(|c: char| if 'A' <= c && c <= 'Z' { ((c as u8) + 32) as char } else { c })
}

/// `s` in ASCII lowercase.
pub fn ascii_lowercase(s: &str) -> (r: Vec<char>)
    ensures
        r@ == ascii_lower(s@),
{
    let n = s.unicode_len();
    let mut out: Vec<char> = Vec::new();
    for i in 0..n
        invariant
            n == s@.len(),
            out@ == ascii_lower(s@.take(i as int)),
    {
        let c = s.get_char(i);
        let l = if 'A' <= c && c <= 'Z' {
            ((c as u8) + 32) as char
        } else {
            c
        };
        out.push(l);
        assert(ascii_lower(s@.take(i + 1)) =~= ascii_lower(s@.take(i as int)).push(l));
    }
    assert(s@.take(n as int) =~= s@);
    out
}

/// Whether `a`, read without regard to ASCII case, names status `st`
/// (`str::eq_ignore_ascii_case`).
pub fn status_matches(a: &str, st: TransactionStatus) -> (r: bool)
    ensures
        r == (ascii_lower(a@) == status_text(st)),
{
    let l = ascii_lowercase(a);
    let name: &str = match st {
        TransactionStatus::Active => "active",
        TransactionStatus::Completed => "completed",
        TransactionStatus::Failed => "failed",
    };
    proof {
        reveal_strlit("active");
        reveal_strlit("completed");
        reveal_strlit("failed");
    }
    let m = name.unicode_len();
    assert(name@ == status_text(st));
    if l.len() != m {
        return false;
    }
    let mut i: usize = 0;
    while i < m
        invariant
            m == name@.len(),
            l@.len() == m,
            name@ == status_text(st),
            l@ == ascii_lower(a@),
            i <= m,
            forall|j: int| 0 <= j < i ==> l@[j] == name@[j],
        decreases m - i,
    {
        if l[i] != name.get_char(i) {
            assert(l@[i as int] != name@[i as int]);
            assert(l@ != name@);
            return false;
        }
        i = i + 1;
    }
    assert(l@ =~= name@);
    true
}

/// The requested status in ASCII lowercase.
pub open spec fn status_filter_view(s: Option<String>) -> Option<Seq<char>> {
    match s {
        Some(s) => Some(ascii_lower(s@)),
        None => None,
    }
}

/// The transactions that pass the filter, in order.
pub open spec fn filtered(rows: Seq<TransactionInfo>, f: TransactionFilter) -> Seq<TransactionInfo> {
    rows.filter(|t: TransactionInfo| passes(t, status_filter_view(f.status), f.from_date, f.to_date))
}

/// The page of `items` for a 1-based page number and a page size.
pub open spec fn page_of<T>(items: Seq<T>, page: nat, limit: nat) -> Seq<T> {
    let start = (page - 1) * limit;
    if start >= items.len() {
        Seq::empty()
    } else if start + limit >= items.len() {
        items.skip(start)
    } else {
        items.subrange(start, start + limit)
    }
}

/// The ids of a page of transactions.
pub open spec fn ids_of(rows: Seq<TransactionInfo>) -> Seq<i32> {
    rows.map_values(|t: TransactionInfo| t.id)
}

/// One page of the transactions that pass the filter, and how many pass.
pub fn list_transactions(rows: &Vec<TransactionInfo>, filter: &TransactionFilter, page: u64, limit: u64) -> (r: (Vec<i32>, u64))
    requires
        page >= 1,
        (page - 1) * limit <= usize::MAX,
        limit <= usize::MAX,
        forall|i: int| 0 <= i < rows@.len() ==> (#[trigger] rows@[i]).started_at.nanos < 1_000_000_000,
        filter.from_date matches Some(f) ==> f.nanos < 1_000_000_000,
        filter.to_date matches Some(u) ==> u.nanos < 1_000_000_000,
    ensures
        r.1 == filtered(rows@, *filter).len(),
        r.0@ == ids_of(page_of(filtered(rows@, *filter), page as nat, limit as nat)),
{
    let ghost fl = status_filter_view(filter.status);
    let ghost pred = |t: TransactionInfo| passes(t, fl, filter.from_date, filter.to_date);
    let mut kept: Vec<i32> = Vec::new();
    let ghost mut kept_rows: Seq<TransactionInfo> = Seq::empty();
    let n = rows.len();
    for i in 0..n
        invariant
            n == rows@.len(),
            forall|k: int| 0 <= k < rows@.len() ==> (#[trigger] rows@[k]).started_at.nanos < 1_000_000_000,
            filter.from_date matches Some(f) ==> f.nanos < 1_000_000_000,
            filter.to_date matches Some(u) ==> u.nanos < 1_000_000_000,
            fl == status_filter_view(filter.status),
            pred == |t: TransactionInfo| passes(t, fl, filter.from_date, filter.to_date),
            kept_rows == rows@.take(i as int).filter(pred),
            kept@ == ids_of(kept_rows),
    {
        let t = &rows[i];
        proof {
            reveal_with_fuel(Seq::<_>::filter, 1);
            assert(rows@.take(i + 1).drop_last() =~= rows@.take(i as int));
            assert(rows@.take(i + 1).last() == rows@[i as int]);
            assert(rows@[i as int].started_at.nanos < 1_000_000_000);
        }
        let mut ok = true;
        if let Some(status) = &filter.status {
            if !status_matches(status.as_str(), t.status) {
                ok = false;
            }
        }
        if let Some(from) = &filter.from_date {
            if t.started_at.is_before(from) {
                ok = false;
            }
        }
        if let Some(to) = &filter.to_date {
            if to.is_before(&t.started_at) {
                ok = false;
            }
        }
        assert(ok == pred(rows@[i as int]));
        if ok {
            kept.push(t.id);
            proof {
                kept_rows = kept_rows.push(rows@[i as int]);
                assert(kept@ =~= ids_of(kept_rows));
            }
        }
    }
    proof {
        assert(rows@.take(n as int) =~= rows@);
        assert(kept_rows == filtered(rows@, *filter));
    }
    let total = kept.len() as u64;
    let start: usize = ((page - 1) * limit) as usize;
    let mut out: Vec<i32> = Vec::new();
    if start < kept.len() {
        let end: usize = if (limit as usize) >= kept.len() - start {
            kept.len()
        } else {
            start + limit as usize
        };
        let mut j = start;
        while j < end
            invariant
                start <= j <= end <= kept@.len(),
                out@ == kept@.subrange(start as int, j as int),
            decreases end - j,
        {
            out.push(kept[j]);
            assert(kept@.subrange(start as int, j + 1) =~= kept@.subrange(start as int, j as int).push(kept@[j as int]));
            j = j + 1;
        }
        proof {
            let items = kept_rows;
            if start + limit >= items.len() {
                assert(ids_of(items.skip(start as int)) =~= kept@.subrange(start as int, kept@.len() as int));
            } else {
                assert(ids_of(items.subrange(start as int, start + limit)) =~= kept@.subrange(start as int, end as int));
            }
        }
    } else {
        assert(ids_of(Seq::<TransactionInfo>::empty()) =~= Seq::<i32>::empty());
    }
    (out, total)
}

/// Transaction statistics of a charge point (energy in Wh).
pub struct TransactionCounts {
    pub total: u32,
    pub active: u32,
    pub completed: u32,
    /// Energy of the completed transactions, in Wh.
    pub completed_energy_wh: i64,
}

/// The number of transactions with status `s`.
pub open spec fn count_status(rows: Seq<TransactionInfo>, s: TransactionStatus) -> nat
    decreases rows.len(),
{
    if rows.len() == 0 {
        0
    } else {
        count_status(rows.drop_last(), s) + if rows.last().status == s {
            1nat
        } else {
            0nat
        }
    }
}

/// The energy of the completed transactions whose energy is known.
pub open spec fn completed_energy(rows: Seq<TransactionInfo>) -> int
    decreases rows.len(),
{
    if rows.len() == 0 {
        0
    } else {
        completed_energy(rows.drop_last()) + if rows.last().status == TransactionStatus::Completed {
            match rows.last().energy_wh {
                Some(e) => e as int,
                None => 0,
            }
        } else {
            0
        }
    }
}

proof fn lemma_stats_bounds(rows: Seq<TransactionInfo>)
    ensures
        count_status(rows, TransactionStatus::Active) <= rows.len(),
        count_status(rows, TransactionStatus::Completed) <= rows.len(),
        -(rows.len() as int) * 0x8000_0000 <= completed_energy(rows) <= (rows.len() as int) * 0x8000_0000,
    decreases rows.len(),
{
    if rows.len() > 0 {
        lemma_stats_bounds(rows.drop_last());
    }
}

/// A completed transaction adds its energy, when known, to the completed
/// energy; an active or failed one adds nothing, whatever its energy.
pub proof fn law_only_completed_energy_counts(rows: Seq<TransactionInfo>, t: TransactionInfo)
    ensures
        t.status == TransactionStatus::Completed ==> completed_energy(rows.push(t))
            == completed_energy(rows) + match t.energy_wh {
            Some(e) => e as int,
            None => 0int,
        },
        t.status != TransactionStatus::Completed ==> completed_energy(rows.push(t))
            == completed_energy(rows),
{
    assert(rows.push(t).drop_last() =~= rows);
}

/// Changing the energy of an active or failed transaction leaves the
/// completed energy unchanged.
pub proof fn law_open_transaction_energy_ignored(
    rows: Seq<TransactionInfo>,
    i: int,
    energy_wh: Option<i32>,
)
    requires
        0 <= i < rows.len(),
        rows[i].status != TransactionStatus::Completed,
    ensures
        completed_energy(rows.update(i, (TransactionInfo { energy_wh, ..rows[i] })))
            == completed_energy(rows),
    decreases rows.len(),
{
    let changed = rows.update(i, TransactionInfo { energy_wh, ..rows[i] });
    if i == rows.len() - 1 {
        assert(changed.drop_last() =~= rows.drop_last());
    } else {
        law_open_transaction_energy_ignored(rows.drop_last(), i, energy_wh);
        assert(changed.drop_last() =~= rows.drop_last().update(
            i,
            TransactionInfo { energy_wh, ..rows[i] },
        ));
    }
}

/// How many transactions there are, how many are active, how many completed,
/// and the energy of the completed ones.
pub fn transaction_counts(rows: &Vec<TransactionInfo>) -> (r: TransactionCounts)
    requires
        rows@.len() <= u32::MAX,
    ensures
        r.total == rows@.len(),
        r.active == count_status(rows@, TransactionStatus::Active),
        r.completed == count_status(rows@, TransactionStatus::Completed),
        r.completed_energy_wh == completed_energy(rows@),
{
    let n = rows.len();
    let mut active: u32 = 0;
    let mut completed: u32 = 0;
    let mut energy: i64 = 0;
    let mut i: usize = 0;
    while i < n
        invariant
            n == rows@.len(),
            n <= u32::MAX,
            i <= n,
            active == count_status(rows@.take(i as int), TransactionStatus::Active),
            completed == count_status(rows@.take(i as int), TransactionStatus::Completed),
            energy == completed_energy(rows@.take(i as int)),
        decreases n - i,
    {
        let ghost post = rows@.take(i + 1);
        proof {
            assert(post.drop_last() =~= rows@.take(i as int));
            assert(post.last() == rows@[i as int]);
            lemma_stats_bounds(post);
            assert((post.len() as int) * 0x8000_0000 <= 0xFFFF_FFFFint * 0x8000_0000)
                by (nonlinear_arith)
                requires
                    post.len() <= 0xFFFF_FFFF,
            ;
        }
        match rows[i].status {
            TransactionStatus::Active => {
                active = active + 1;
            },
            TransactionStatus::Completed => {
                completed = completed + 1;
                match rows[i].energy_wh {
                    Some(e) => {
                        energy = energy + e as i64;
                    },
                    None => {},
                }
            },
            TransactionStatus::Failed => {},
        }
        i = i + 1;
    }
    assert(rows@.take(n as int) =~= rows@);
    TransactionCounts { total: n as u32, active, completed, completed_energy_wh: energy }
}

} // verus!
