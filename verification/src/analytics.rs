//! Analytics over completed and started charging transactions: dashboard
//! summary, revenue and energy per period, peak hours and station uptime.
//!
//! The rows are read from the database by the caller; the aggregation here
//! is what the dashboard endpoints answer.
use vstd::prelude::*;

use crate::buckets::{group_by_label, groups, key_count, total_sum};
use crate::calendar::{
    calendar_parts, date_text, in_utc_range, pad_number, padded, utc_calendar, utc_date_text,
};
use crate::text::text_eq;

verus! {

/// What the analytics read of one transaction row.
pub struct TransactionSample {
    pub charge_point_id: String,
    /// Start time, seconds since the Unix epoch (UTC).
    pub started_at: i64,
    /// Stop time, seconds since the Unix epoch (UTC), if stopped.
    pub stopped_at: Option<i64>,
    /// Energy consumed in Wh.
    pub energy_consumed: Option<i32>,
    /// Total cost in the smallest currency unit.
    pub total_cost: Option<i32>,
    pub currency: Option<String>,
}

/// Overall dashboard summary.
pub struct AnalyticsSummary {
    pub total_stations: u64,
    pub stations_online: u64,
    pub stations_offline: u64,
    pub active_transactions: u64,
    pub transactions_today: u64,
    pub revenue_today: i64,
    pub revenue_month: i64,
    pub energy_today_wh: i64,
    pub energy_month_wh: i64,
    pub currency: String,
}

/// Revenue data point (one per period bucket).
pub struct RevenueBucket {
    pub period: String,
    pub revenue: i64,
    pub transaction_count: u64,
}

/// Revenue breakdown response.
pub struct RevenueResponse {
    pub granularity: String,
    pub buckets: Vec<RevenueBucket>,
    pub total_revenue: i64,
    pub currency: String,
}

/// Energy data point.
pub struct EnergyBucket {
    pub period: String,
    pub energy_wh: i64,
    pub transaction_count: u64,
}

/// Energy breakdown response.
pub struct EnergyResponse {
    pub granularity: String,
    pub buckets: Vec<EnergyBucket>,
    pub total_energy_wh: i64,
}

/// Peak-hour entry (0–23).
pub struct PeakHourEntry {
    pub hour: u8,
    pub transaction_count: u64,
    pub energy_wh: i64,
}

/// Peak hours response.
pub struct PeakHoursResponse {
    pub hours: Vec<PeakHourEntry>,
    pub busiest_hour: u8,
}

/// Per-station uptime entry.
pub struct StationUptimeEntry {
    pub charge_point_id: String,
    pub vendor: String,
    pub model: String,
    pub status: String,
    pub is_connected: bool,
    /// Last heartbeat as RFC 3339 text.
    pub last_heartbeat: Option<String>,
    pub seconds_since_heartbeat: Option<i64>,
    pub total_transactions: u64,
    pub total_energy_wh: i64,
}

/// Station uptime response.
pub struct StationUptimeResponse {
    pub stations: Vec<StationUptimeEntry>,
}

// ── Amount sums ───────────────────────────────────────────────

/// The sum of the present values of `f` over `rows`.
pub open spec fn sum_present(rows: Seq<TransactionSample>, f: spec_fn(TransactionSample) -> Option<i32>) -> int
    decreases rows.len(),
{
    if rows.len() == 0 {
        0
    } else {
        sum_present(rows.drop_last(), f) + match f(rows.last()) {
            Some(v) => v as int,
            None => 0,
        }
    }
}

/// The total cost of a row.
pub open spec fn cost_of(t: TransactionSample) -> Option<i32> {
    t.total_cost
}

/// The consumed energy of a row.
pub open spec fn energy_of(t: TransactionSample) -> Option<i32> {
    t.energy_consumed
}

/// The order of stop times: a missing stop time comes before every other.
pub open spec fn stop_key(t: TransactionSample) -> int {
    match t.stopped_at {
        Some(s) => s as int,
        None => i64::MIN - 1,
    }
}

/// The index of the most recently stopped row that names a currency (of
/// rows stopped at the same time, the one listed last), if any.
pub open spec fn latest_priced(rows: Seq<TransactionSample>) -> Option<int>
    decreases rows.len(),
{
    if rows.len() == 0 {
        None
    } else {
        let best = latest_priced(rows.drop_last());
        let last = rows.len() - 1;
        if rows[last].currency is Some && (best is None || stop_key(rows[best->0]) <= stop_key(
            rows[last],
        )) {
            Some(last)
        } else {
            best
        }
    }
}

/// The currency reported for a set of rows: that of the most recently
/// stopped row that names one, else `UZS`.
pub open spec fn reported_currency(rows: Seq<TransactionSample>) -> Seq<char> {
    match latest_priced(rows) {
        Some(i) => rows[i].currency->0@,
        None => "UZS"@,
    }
}

/// The row `latest_priced` picks names a currency and stopped no earlier
/// than any other row naming one; there is none only when no row names one.
pub proof fn lemma_latest_priced(rows: Seq<TransactionSample>)
    ensures
        latest_priced(rows) matches Some(i) ==> 0 <= i < rows.len() && rows[i].currency is Some
            && forall|j: int|
            0 <= j < rows.len() && (#[trigger] rows[j]).currency is Some ==> stop_key(rows[j])
                <= stop_key(rows[i]),
        latest_priced(rows) is None ==> forall|j: int|
            0 <= j < rows.len() ==> (#[trigger] rows[j]).currency is None,
    decreases rows.len(),
{
    if rows.len() > 0 {
        let p = rows.drop_last();
        lemma_latest_priced(p);
        assert forall|j: int| 0 <= j < p.len() implies p[j] == rows[j] by {}
    }
}

fn currency_of(rows: &Vec<TransactionSample>) -> (r: String)
    ensures
        r@ == reported_currency(rows@),
{
    let mut best: Option<usize> = None;
    let n = rows.len();
    let mut i: usize = 0;
    while i < n
        invariant
            n == rows@.len(),
            i <= n,
            match best {
                Some(b) => latest_priced(rows@.take(i as int)) == Some(b as int) && b < i
                    && rows@[b as int].currency is Some,
                None => latest_priced(rows@.take(i as int)) is None,
            },
        decreases n - i,
    {
        proof {
            let t = rows@.take(i + 1);
            assert(t.drop_last() =~= rows@.take(i as int));
            assert(t[i as int] == rows@[i as int]);
            if let Some(b) = best {
                assert(t[b as int] == rows@[b as int]);
            }
        }
        if rows[i].currency.is_some() {
            let later = match best {
                None => true,
                Some(b) => match (rows[b].stopped_at, rows[i].stopped_at) {
                    (None, _) => true,
                    (Some(_), None) => false,
                    (Some(x), Some(y)) => x <= y,
                },
            };
            if later {
                best = Some(i);
            }
        }
        i = i + 1;
    }
    assert(rows@.take(n as int) =~= rows@);
    match best {
        Some(b) => match &rows[b].currency {
            Some(c) => c.clone(),
            None => "UZS".to_owned(),
        },
        None => "UZS".to_owned(),
    }
}

proof fn lemma_sum_present_bound(rows: Seq<TransactionSample>, f: spec_fn(TransactionSample) -> Option<i32>)
    ensures
        -(rows.len() as int) * 0x8000_0000 <= sum_present(rows, f) <= (rows.len() as int) * 0x8000_0000,
    decreases rows.len(),
{
    if rows.len() > 0 {
        lemma_sum_present_bound(rows.drop_last(), f);
    }
}

fn sum_costs(rows: &Vec<TransactionSample>) -> (r: i64)
    requires
        rows@.len() <= u32::MAX,
    ensures
        r == sum_present(rows@, |t: TransactionSample| cost_of(t)),
{
    let mut total: i64 = 0;
    let n = rows.len();
    for i in 0..n
        invariant
            n == rows@.len(),
            n <= u32::MAX,
            total == sum_present(rows@.take(i as int), |t: TransactionSample| cost_of(t)),
    {
        proof {
            let post = rows@.take(i + 1);
            assert(post.drop_last() =~= rows@.take(i as int));
            lemma_sum_present_bound(post, |t: TransactionSample| cost_of(t));
            assert((post.len() as int) * 0x8000_0000 <= 0xFFFF_FFFFint * 0x8000_0000)
                by (nonlinear_arith)
                requires
                    post.len() <= 0xFFFF_FFFF,
            ;
        }
        match rows[i].total_cost {
            Some(c) => {
                total = total + c as i64;
            },
            None => {},
        }
    }
    assert(rows@.take(n as int) =~= rows@);
    total
}

fn sum_energy(rows: &Vec<TransactionSample>) -> (r: i64)
    requires
        rows@.len() <= u32::MAX,
    ensures
        r == sum_present(rows@, |t: TransactionSample| energy_of(t)),
{
    let mut total: i64 = 0;
    let n = rows.len();
    for i in 0..n
        invariant
            n == rows@.len(),
            n <= u32::MAX,
            total == sum_present(rows@.take(i as int), |t: TransactionSample| energy_of(t)),
    {
        proof {
            let post = rows@.take(i + 1);
            assert(post.drop_last() =~= rows@.take(i as int));
            lemma_sum_present_bound(post, |t: TransactionSample| energy_of(t));
            assert((post.len() as int) * 0x8000_0000 <= 0xFFFF_FFFFint * 0x8000_0000)
                by (nonlinear_arith)
                requires
                    post.len() <= 0xFFFF_FFFF,
            ;
        }
        match rows[i].energy_consumed {
            Some(e) => {
                total = total + e as i64;
            },
            None => {},
        }
    }
    assert(rows@.take(n as int) =~= rows@);
    total
}

/// The dashboard summary: station counts (offline never below zero), the
/// number of today's completed transactions, and revenue and energy over
/// today's and this month's completed transactions; the currency is that of
/// the month transaction naming one that stopped last, else `UZS`.
pub fn summarize(
    total_stations: u64,
    stations_online: u64,
    active_transactions: u64,
    today: &Vec<TransactionSample>,
    month: &Vec<TransactionSample>,
) -> (r: AnalyticsSummary)
    requires
        today@.len() <= u32::MAX,
        month@.len() <= u32::MAX,
    ensures
        r.total_stations == total_stations,
        r.stations_online == stations_online,
        r.stations_offline == if stations_online <= total_stations {
            total_stations - stations_online
        } else {
            0
        },
        r.active_transactions == active_transactions,
        r.transactions_today == today@.len(),
        r.revenue_today == sum_present(today@, |t: TransactionSample| cost_of(t)),
        r.energy_today_wh == sum_present(today@, |t: TransactionSample| energy_of(t)),
        r.revenue_month == sum_present(month@, |t: TransactionSample| cost_of(t)),
        r.energy_month_wh == sum_present(month@, |t: TransactionSample| energy_of(t)),
        r.currency@ == reported_currency(month@),
{
    AnalyticsSummary {
        total_stations,
        stations_online,
        stations_offline: total_stations.saturating_sub(stations_online),
        active_transactions,
        transactions_today: today.len() as u64,
        revenue_today: sum_costs(today),
        revenue_month: sum_costs(month),
        energy_today_wh: sum_energy(today),
        energy_month_wh: sum_energy(month),
        currency: currency_of(month),
    }
}

// ── Period buckets ─────────────────────────────────────────────

/// The start (00:00 UTC) of the day of a timestamp, and the start of the
/// first day of its month.
pub open spec fn summary_window_of(now: int) -> (int, int) {
    let today = now - now % 86400;
    (today, today - (utc_calendar(now).2 - 1) * 86400)
}

/// The instants from which the dashboard summary counts today's and this
/// month's completed transactions: the start of the current UTC day and of
/// the first day of the current month.
pub fn summary_window(now: i64) -> (r: (i64, i64))
    requires
        in_utc_range(now as int),
    ensures
        (r.0 as int, r.1 as int) == summary_window_of(now as int),
{
    let (_, _, day, _, _) = calendar_parts(now);
    let rem: i64 = if now >= 0 {
        now % 86400
    } else {
        let m = (0 - (now + 1)) % 86400;
        86399 - m
    };
    proof {
        assert(rem == (now as int) % 86400) by (nonlinear_arith)
            requires
                rem == if now >= 0 { (now as int) % 86400 } else { 86399 - ((0 - (now + 1)) as int) % 86400 },
        ;
    }
    let today: i64 = now - rem;
    let back: i64 = (day as i64 - 1) * 86400;
    (today, today - back)
}

/// The number of days the revenue and energy breakdowns look back.
pub open spec fn lookback_days_of(granularity: Seq<char>) -> int {
    if granularity == "month"@ {
        365
    } else if granularity == "week"@ {
        90
    } else {
        30
    }
}

/// The number of days the revenue and energy breakdowns look back for a
/// granularity: a year for `month`, 90 days for `week`, else 30 days.
pub fn lookback_days(granularity: &str) -> (r: i64)
    ensures
        r == lookback_days_of(granularity@),
{
    if text_eq(granularity, "month") {
        365
    } else if text_eq(granularity, "week") {
        90
    } else {
        30
    }
}

/// The period label of a timestamp: `YYYY-MM` for `month`, `YYYY-Www` (ISO
/// week) for `week`, else the `%Y-%m-%d` date.
pub open spec fn bucket_label(granularity: Seq<char>, secs: int) -> Seq<char> {
    let (year, month, _, iso_year, iso_week) = utc_calendar(secs);
    if granularity == "month"@ {
        padded(year, 4) + seq!['-'] + padded(month, 2)
    } else if granularity == "week"@ {
        padded(iso_year, 4) + seq!['-', 'W'] + padded(iso_week, 2)
    } else {
        utc_date_text(secs)
    }
}

/// Produce the bucket label of a timestamp for a granularity.
pub fn bucket_key(granularity: &str, secs: i64) -> (r: String)
    requires
        in_utc_range(secs as int),
    ensures
        r@ == bucket_label(granularity@, secs as int),
{
    if text_eq(granularity, "month") {
        let (year, month, _, _, _) = calendar_parts(secs);
        let mut s = pad_number(year as i64, 4);
        s.append("-");
        let m = pad_number(month as i64, 2);
        s.append(m.as_str());
        proof {
            reveal_strlit("-");
        }
        s
    } else if text_eq(granularity, "week") {
        let (_, _, _, iso_year, iso_week) = calendar_parts(secs);
        let mut s = pad_number(iso_year as i64, 4);
        s.append("-W");
        let w = pad_number(iso_week as i64, 2);
        s.append(w.as_str());
        proof {
            reveal_strlit("-W");
        }
        s
    } else {
        date_text(secs)
    }
}

/// The `(label, amount)` rows of the stopped transactions, in order.
pub open spec fn period_rows(
    granularity: Seq<char>,
    rows: Seq<TransactionSample>,
    f: spec_fn(TransactionSample) -> Option<i32>,
) -> Seq<(Seq<char>, i32)>
    decreases rows.len(),
{
    if rows.len() == 0 {
        Seq::empty()
    } else {
        let prev = period_rows(granularity, rows.drop_last(), f);
        match rows.last().stopped_at {
            Some(s) => prev.push(
                (
                    bucket_label(granularity, s as int),
                    match f(rows.last()) {
                        Some(v) => v,
                        None => 0i32,
                    },
                ),
            ),
            None => prev,
        }
    }
}

/// Every stop time lies in the range of `DateTime<Utc>`.
pub open spec fn stops_in_range(rows: Seq<TransactionSample>) -> bool {
    forall|i: int|
        0 <= i < rows.len() ==> (#[trigger] rows[i].stopped_at matches Some(s) ==> in_utc_range(
            s as int,
        ))
}

proof fn lemma_period_rows_len(
    granularity: Seq<char>,
    rows: Seq<TransactionSample>,
    f: spec_fn(TransactionSample) -> Option<i32>,
)
    ensures
        period_rows(granularity, rows, f).len() <= rows.len(),
    decreases rows.len(),
{
    if rows.len() > 0 {
        lemma_period_rows_len(granularity, rows.drop_last(), f);
    }
}

fn labelled_rows(
    granularity: &str,
    rows: &Vec<TransactionSample>,
    use_cost: bool,
) -> (r: Vec<(String, i32)>)
    requires
        stops_in_range(rows@),
    ensures
        r@.map_values(|x: (String, i32)| (x.0@, x.1)) == if use_cost {
            period_rows(granularity@, rows@, |t: TransactionSample| cost_of(t))
        } else {
            period_rows(granularity@, rows@, |t: TransactionSample| energy_of(t))
        },
{
    let ghost f = if use_cost {
        |t: TransactionSample| cost_of(t)
    } else {
        |t: TransactionSample| energy_of(t)
    };
    let mut out: Vec<(String, i32)> = Vec::new();
    let n = rows.len();
    for i in 0..n
        invariant
            n == rows@.len(),
            stops_in_range(rows@),
            f == if use_cost {
                |t: TransactionSample| cost_of(t)
            } else {
                |t: TransactionSample| energy_of(t)
            },
            out@.map_values(|x: (String, i32)| (x.0@, x.1)) == period_rows(
                granularity@,
                rows@.take(i as int),
                f,
            ),
    {
        let ghost pre = out@.map_values(|x: (String, i32)| (x.0@, x.1));
        proof {
            assert(rows@.take(i + 1).drop_last() =~= rows@.take(i as int));
            assert(rows@.take(i + 1).last() == rows@[i as int]);
        }
        match rows[i].stopped_at {
            Some(s) => {
                proof {
                    assert(rows@[i as int].stopped_at matches Some(s) ==> in_utc_range(s as int));
                }
                let key = bucket_key(granularity, s);
                let amount: i32 = if use_cost {
                    match rows[i].total_cost {
                        Some(c) => c,
                        None => 0,
                    }
                } else {
                    match rows[i].energy_consumed {
                        Some(e) => e,
                        None => 0,
                    }
                };
                out.push((key, amount));
                proof {
                    assert(out@.map_values(|x: (String, i32)| (x.0@, x.1)) =~= pre.push(
                        (key@, amount),
                    ));
                }
            },
            None => {
                assert(out@.map_values(|x: (String, i32)| (x.0@, x.1)) =~= pre);
            },
        }
    }
    assert(rows@.take(n as int) =~= rows@);
    out
}

fn total_of(rows: &Vec<(String, i32)>) -> (r: i64)
    requires
        rows@.len() <= u32::MAX,
    ensures
        r == total_sum(rows@.map_values(|x: (String, i32)| (x.0@, x.1))),
{
    let ghost rs = rows@.map_values(|x: (String, i32)| (x.0@, x.1));
    let mut total: i64 = 0;
    let n = rows.len();
    for i in 0..n
        invariant
            n == rows@.len(),
            n <= u32::MAX,
            rs == rows@.map_values(|x: (String, i32)| (x.0@, x.1)),
            total == total_sum(rs.take(i as int)),
    {
        proof {
            let post = rs.take(i + 1);
            assert(post.drop_last() =~= rs.take(i as int));
            crate::buckets::lemma_total_bound(post);
            assert((post.len() as int) * 0x8000_0000 <= 0xFFFF_FFFFint * 0x8000_0000)
                by (nonlinear_arith)
                requires
                    post.len() <= 0xFFFF_FFFF,
            ;
        }
        total = total + rows[i].1 as i64;
    }
    assert(rs.take(n as int) =~= rs);
    total
}

/// Revenue of the stopped transactions per period, in label order, with the
/// total over all of them and the currency of the most recent transaction
/// naming one (else `UZS`).
pub fn revenue_breakdown(granularity: String, rows: &Vec<TransactionSample>) -> (r: RevenueResponse)
    requires
        rows@.len() <= u32::MAX,
        stops_in_range(rows@),
    ensures
        r.granularity@ == granularity@,
        groups(
            r.buckets@.map_values(
                |b: RevenueBucket| (b.period@, b.revenue as int, b.transaction_count as nat),
            ),
            period_rows(granularity@, rows@, |t: TransactionSample| cost_of(t)),
        ),
        r.total_revenue == total_sum(
            period_rows(granularity@, rows@, |t: TransactionSample| cost_of(t)),
        ),
        r.currency@ == reported_currency(rows@),
{
    let labelled = labelled_rows(granularity.as_str(), rows, true);
    proof {
        lemma_period_rows_len(granularity@, rows@, |t: TransactionSample| cost_of(t));
    }
    let grouped = group_by_label(&labelled);
    let total_revenue = total_of(&labelled);
    let mut buckets: Vec<RevenueBucket> = Vec::new();
    let n = grouped.len();
    for i in 0..n
        invariant
            n == grouped@.len(),
            buckets@.len() == i,
            forall|j: int|
                0 <= j < i ==> (#[trigger] buckets@[j]).period@ == grouped@[j].0@
                    && buckets@[j].revenue == grouped@[j].1 && buckets@[j].transaction_count
                    == grouped@[j].2,
    {
        let (p, s, c) = (grouped[i].0.clone(), grouped[i].1, grouped[i].2);
        buckets.push(RevenueBucket { period: p, revenue: s, transaction_count: c });
    }
    proof {
        assert(buckets@.map_values(
            |b: RevenueBucket| (b.period@, b.revenue as int, b.transaction_count as nat),
        ) =~= grouped@.map_values(|b: (String, i64, u64)| (b.0@, b.1 as int, b.2 as nat)));
    }
    RevenueResponse { granularity, buckets, total_revenue, currency: currency_of(rows) }
}

/// Energy of the stopped transactions per period, in label order, with the
/// total over all of them.
pub fn energy_breakdown(granularity: String, rows: &Vec<TransactionSample>) -> (r: EnergyResponse)
    requires
        rows@.len() <= u32::MAX,
        stops_in_range(rows@),
    ensures
        r.granularity@ == granularity@,
        groups(
            r.buckets@.map_values(
                |b: EnergyBucket| (b.period@, b.energy_wh as int, b.transaction_count as nat),
            ),
            period_rows(granularity@, rows@, |t: TransactionSample| energy_of(t)),
        ),
        r.total_energy_wh == total_sum(
            period_rows(granularity@, rows@, |t: TransactionSample| energy_of(t)),
        ),
{
    let labelled = labelled_rows(granularity.as_str(), rows, false);
    proof {
        lemma_period_rows_len(granularity@, rows@, |t: TransactionSample| energy_of(t));
    }
    let grouped = group_by_label(&labelled);
    let total_energy_wh = total_of(&labelled);
    let mut buckets: Vec<EnergyBucket> = Vec::new();
    let n = grouped.len();
    for i in 0..n
        invariant
            n == grouped@.len(),
            buckets@.len() == i,
            forall|j: int|
                0 <= j < i ==> (#[trigger] buckets@[j]).period@ == grouped@[j].0@
                    && buckets@[j].energy_wh == grouped@[j].1 && buckets@[j].transaction_count
                    == grouped@[j].2,
    {
        let (p, s, c) = (grouped[i].0.clone(), grouped[i].1, grouped[i].2);
        buckets.push(EnergyBucket { period: p, energy_wh: s, transaction_count: c });
    }
    proof {
        assert(buckets@.map_values(
            |b: EnergyBucket| (b.period@, b.energy_wh as int, b.transaction_count as nat),
        ) =~= grouped@.map_values(|b: (String, i64, u64)| (b.0@, b.1 as int, b.2 as nat)));
    }
    EnergyResponse { granularity, buckets, total_energy_wh }
}

// ── Peak hours ─────────────────────────────────────────────────

/// The UTC hour of day (0–23) of a timestamp.
pub open spec fn hour_of(secs: int) -> int {
    (secs % 86400) / 3600
}

/// The number of rows that started in hour `h`.
pub open spec fn hour_count(rows: Seq<TransactionSample>, h: int) -> nat
    decreases rows.len(),
{
    if rows.len() == 0 {
        0
    } else {
        hour_count(rows.drop_last(), h) + if hour_of(rows.last().started_at as int) == h {
            1nat
        } else {
            0nat
        }
    }
}

/// The energy of the rows that started in hour `h`.
pub open spec fn hour_energy(rows: Seq<TransactionSample>, h: int) -> int
    decreases rows.len(),
{
    if rows.len() == 0 {
        0
    } else {
        hour_energy(rows.drop_last(), h) + if hour_of(rows.last().started_at as int) == h {
            match rows.last().energy_consumed {
                Some(e) => e as int,
                None => 0,
            }
        } else {
            0
        }
    }
}

/// `b` is the last hour with the highest count (`Iterator::max_by_key`
/// yields the last of several maximal elements).
pub open spec fn is_busiest(counts: Seq<u64>, b: int) -> bool {
    &&& 0 <= b < counts.len()
    &&& forall|h: int| 0 <= h < counts.len() ==> counts[h] <= counts[b]
    &&& forall|h: int| b < h < counts.len() ==> counts[h] < counts[b]
}

proof fn lemma_hour_bounds(rows: Seq<TransactionSample>, h: int)
    ensures
        hour_count(rows, h) <= rows.len(),
        -(rows.len() as int) * 0x8000_0000 <= hour_energy(rows, h) <= (rows.len() as int)
            * 0x8000_0000,
    decreases rows.len(),
{
    if rows.len() > 0 {
        lemma_hour_bounds(rows.drop_last(), h);
    }
}

/// The UTC hour of day of a timestamp (`DateTime::hour` of
/// `DateTime::from_timestamp`, which splits on whole days of 86400 seconds).
pub fn utc_hour(secs: i64) -> (r: u8)
    ensures
        r == hour_of(secs as int),
        r < 24,
{
    let day_secs: i64 = if secs >= 0 {
        secs % 86400
    } else {
        86399 - ((-(secs + 1)) % 86400)
    };
    (day_secs / 3600) as u8
}

/// Transactions and energy per hour of day (24 entries, hour 0 first) of
/// the started transactions, and the busiest hour.
pub fn peak_hours(rows: &Vec<TransactionSample>) -> (r: PeakHoursResponse)
    requires
        rows@.len() <= u32::MAX,
    ensures
        r.hours@.len() == 24,
        forall|h: int|
            0 <= h < 24 ==> (#[trigger] r.hours@[h]).hour == h && r.hours@[h].transaction_count
                == hour_count(rows@, h) && r.hours@[h].energy_wh == hour_energy(rows@, h),
        is_busiest(r.hours@.map_values(|e: PeakHourEntry| e.transaction_count), r.busiest_hour as int),
{
    let mut counts: Vec<u64> = Vec::new();
    let mut energy: Vec<i64> = Vec::new();
    for h in 0..24usize
        invariant
            counts@.len() == h,
            energy@.len() == h,
            forall|k: int| 0 <= k < h ==> counts@[k] == 0 && energy@[k] == 0,
    {
        counts.push(0);
        energy.push(0);
    }
    let n = rows.len();
    let mut i: usize = 0;
    while i < n
        invariant
            n == rows@.len(),
            i <= n,
            n <= u32::MAX,
            counts@.len() == 24,
            energy@.len() == 24,
            forall|h: int|
                0 <= h < 24 ==> #[trigger] counts@[h] == hour_count(rows@.take(i as int), h)
                    && energy@[h] == hour_energy(rows@.take(i as int), h),
        decreases n - i,
    {
        let hour = utc_hour(rows[i].started_at) as usize;
        let ghost post = rows@.take(i + 1);
        proof {
            assert(post.drop_last() =~= rows@.take(i as int));
            assert(post.last() == rows@[i as int]);
            lemma_hour_bounds(post, hour as int);
            assert((post.len() as int) * 0x8000_0000 <= 0xFFFF_FFFFint * 0x8000_0000)
                by (nonlinear_arith)
                requires
                    post.len() <= 0xFFFF_FFFF,
            ;
            assert(counts@[hour as int] == hour_count(rows@.take(i as int), hour as int));
            assert(energy@[hour as int] == hour_energy(rows@.take(i as int), hour as int));
        }
        let e: i64 = match rows[i].energy_consumed {
            Some(v) => v as i64,
            None => 0,
        };
        let c = counts[hour] + 1;
        counts.set(hour, c);
        let en = energy[hour] + e;
        energy.set(hour, en);
        proof {
            assert forall|h: int| 0 <= h < 24 implies #[trigger] counts@[h] == hour_count(post, h)
                && energy@[h] == hour_energy(post, h) by {
                if h != hour {
                    assert(counts@[h] == hour_count(rows@.take(i as int), h));
                    assert(energy@[h] == hour_energy(rows@.take(i as int), h));
                    assert(hour_of(post.last().started_at as int) != h);
                } else {
                    assert(hour_of(post.last().started_at as int) == h);
                    assert(hour_count(post, h) == hour_count(rows@.take(i as int), h) + 1);
                    assert(hour_energy(post, h) == hour_energy(rows@.take(i as int), h) + e);
                }
            }
        }
        i = i + 1;
    }
    assert(rows@.take(n as int) =~= rows@);
    let mut busiest: usize = 0;
    for h in 1..24usize
        invariant
            counts@.len() == 24,
            busiest < h,
            forall|k: int| 0 <= k < h ==> counts@[k] <= counts@[busiest as int],
            forall|k: int| busiest < k < h ==> counts@[k] < counts@[busiest as int],
    {
        if counts[h] >= counts[busiest] {
            busiest = h;
        }
    }
    let mut hours: Vec<PeakHourEntry> = Vec::new();
    for h in 0..24usize
        invariant
            counts@.len() == 24,
            energy@.len() == 24,
            hours@.len() == h,
            forall|k: int|
                0 <= k < h ==> (#[trigger] hours@[k]).hour == k && hours@[k].transaction_count
                    == counts@[k] && hours@[k].energy_wh == energy@[k],
    {
        hours.push(PeakHourEntry { hour: h as u8, transaction_count: counts[h], energy_wh: energy[h] });
    }
    proof {
        assert(hours@.map_values(|e: PeakHourEntry| e.transaction_count) =~= counts@);
    }
    PeakHoursResponse { hours, busiest_hour: busiest as u8 }
}

// ── Station uptime ─────────────────────────────────────────────

/// What the uptime report reads of one charge point row.
pub struct StationSample {
    pub id: String,
    pub vendor: String,
    pub model: String,
    pub status: String,
    /// Last heartbeat, nanoseconds since the Unix epoch.
    pub last_heartbeat: Option<i64>,
}

/// The RFC 3339 text of a UTC instant given in nanoseconds since the epoch.
pub uninterp spec fn rfc3339_text(nanos: int) -> Seq<char>;

/// `DateTime::from_timestamp_nanos(nanos).to_rfc3339()`; the result is named.
#[verifier::external_body]
fn rfc3339_of(nanos: i64) -> (r: String)
    ensures
        r@ == rfc3339_text(nanos as int),
{
    chrono::DateTime::from_timestamp_nanos(nanos).to_rfc3339()
}

/// The `(charge point, energy)` rows of completed transactions.
pub open spec fn station_rows(rows: Seq<TransactionSample>) -> Seq<(Seq<char>, i32)> {
    rows.map_values(
        |t: TransactionSample|
            (
                t.charge_point_id@,
                match t.energy_consumed {
                    Some(e) => e,
                    None => 0i32,
                },
            ),
    )
}

/// The uptime entry the report gives for one station.
pub open spec fn uptime_entry_ok(
    e: StationUptimeEntry,
    s: StationSample,
    completed: Seq<TransactionSample>,
    connected: Seq<Seq<char>>,
    now: int,
) -> bool {
    &&& e.charge_point_id@ == s.id@
    &&& e.vendor@ == s.vendor@
    &&& e.model@ == s.model@
    &&& e.status@ == s.status@
    &&& e.is_connected == connected.contains(s.id@)
    &&& match s.last_heartbeat {
        Some(hb) => e.last_heartbeat matches Some(t) && t@ == rfc3339_text(hb as int)
            && e.seconds_since_heartbeat == Some(
            crate::session::whole_seconds(now - hb) as i64,
        ),
        None => e.last_heartbeat is None && e.seconds_since_heartbeat is None,
    }
    &&& e.total_transactions == key_count(station_rows(completed), s.id@)
    &&& e.total_energy_wh == crate::buckets::key_sum(station_rows(completed), s.id@)
}

/// Per-station uptime: connection state, time since the last heartbeat
/// (whole seconds toward zero) and the count and energy of its completed
/// transactions, one entry per station in the given order.
pub fn station_uptime(
    stations: Vec<StationSample>,
    completed: &Vec<TransactionSample>,
    connected_ids: &Vec<String>,
    now: i64,
) -> (r: StationUptimeResponse)
    requires
        completed@.len() <= u32::MAX,
    ensures
        r.stations@.len() == stations@.len(),
        forall|i: int|
            0 <= i < stations@.len() ==> uptime_entry_ok(
                #[trigger] r.stations@[i],
                stations@[i],
                completed@,
                connected_ids@.map_values(|s: String| s@),
                now as int,
            ),
{
    let mut labelled: Vec<(String, i32)> = Vec::new();
    let m = completed.len();
    for j in 0..m
        invariant
            m == completed@.len(),
            labelled@.len() == j,
            labelled@.map_values(|x: (String, i32)| (x.0@, x.1)) == station_rows(
                completed@.take(j as int),
            ),
    {
        let e: i32 = match completed[j].energy_consumed {
            Some(v) => v,
            None => 0,
        };
        let ghost prev = labelled@.map_values(|x: (String, i32)| (x.0@, x.1));
        let ghost old_labelled = labelled@;
        labelled.push((completed[j].charge_point_id.clone(), e));
        proof {
            let want = station_rows(completed@.take(j + 1));
            assert(want.len() == j + 1);
            assert(want[j as int] == (completed@[j as int].charge_point_id@, e));
            assert forall|k: int| 0 <= k < j implies want[k] == prev[k] by {
                assert(completed@.take(j + 1)[k] == completed@.take(j as int)[k]);
            }
            let got = labelled@.map_values(|x: (String, i32)| (x.0@, x.1));
            assert(got.len() == j + 1);
            assert forall|k: int| 0 <= k < j implies got[k] == prev[k] by {
                assert(labelled@[k] == old_labelled[k]);
            }
            assert(got[j as int] == (completed@[j as int].charge_point_id@, e));
            assert(labelled@.map_values(|x: (String, i32)| (x.0@, x.1)) =~= station_rows(
                completed@.take(j + 1),
            ));
        }
    }
    assert(completed@.take(m as int) =~= completed@);
    let grouped = group_by_label(&labelled);
    let ghost gs = grouped@.map_values(|b: (String, i64, u64)| (b.0@, b.1 as int, b.2 as nat));
    let ghost rs = station_rows(completed@);
    let ghost conn = connected_ids@.map_values(|s: String| s@);
    let mut out: Vec<StationUptimeEntry> = Vec::new();
    let n = stations.len();
    let mut i: usize = 0;
    while i < n
        invariant
            n == stations@.len(),
            i <= n,
            groups(gs, rs),
            gs == grouped@.map_values(|b: (String, i64, u64)| (b.0@, b.1 as int, b.2 as nat)),
            rs == station_rows(completed@),
            conn == connected_ids@.map_values(|s: String| s@),
            out@.len() == i,
            forall|k: int|
                0 <= k < i ==> uptime_entry_ok(
                    #[trigger] out@[k],
                    stations@[k],
                    completed@,
                    conn,
                    now as int,
                ),
        decreases n - i,
    {
        let st = &stations[i];
        let mut is_connected = false;
        let mut c: usize = 0;
        while c < connected_ids.len()
            invariant
                conn == connected_ids@.map_values(|s: String| s@),
                c <= connected_ids@.len(),
                is_connected == exists|q: int| 0 <= q < c && conn[q] == st.id@,
            decreases connected_ids@.len() - c,
        {
            assert(conn[c as int] == connected_ids@[c as int]@);
            if text_eq(connected_ids[c].as_str(), st.id.as_str()) {
                is_connected = true;
            }
            c = c + 1;
        }
        let mut total_tx: u64 = 0;
        let mut total_energy: i64 = 0;
        let mut g: usize = 0;
        let mut found = false;
        while g < grouped.len()
            invariant
                gs == grouped@.map_values(|b: (String, i64, u64)| (b.0@, b.1 as int, b.2 as nat)),
                groups(gs, rs),
                g <= grouped@.len(),
                found ==> total_tx == key_count(rs, st.id@) && total_energy
                    == crate::buckets::key_sum(rs, st.id@),
                !found ==> total_tx == 0 && total_energy == 0 && forall|q: int|
                    0 <= q < g ==> gs[q].0 != st.id@,
            decreases grouped@.len() - g,
        {
            if !found && text_eq(grouped[g].0.as_str(), st.id.as_str()) {
                proof {
                    assert(gs[g as int].1 == crate::buckets::key_sum(rs, gs[g as int].0));
                }
                total_tx = grouped[g].2;
                total_energy = grouped[g].1;
                found = true;
            }
            g = g + 1;
        }
        proof {
            if !found {
                if key_count(rs, st.id@) > 0 {
                    let q = choose|q: int| 0 <= q < gs.len() && gs[q].0 == st.id@;
                    assert(gs[q].0 != st.id@);
                }
                crate::buckets::lemma_absent_sum(rs, st.id@);
            }
        }
        let (last_heartbeat, seconds_since_heartbeat) = match st.last_heartbeat {
            Some(hb) => {
                let d: i128 = now as i128 - hb as i128;
                let secs: i128 = if d >= 0 {
                    d / 1_000_000_000
                } else {
                    0 - ((0 - d) / 1_000_000_000)
                };
                (Some(rfc3339_of(hb)), Some(secs as i64))
            },
            None => (None, None),
        };
        out.push(
            StationUptimeEntry {
                charge_point_id: st.id.clone(),
                vendor: st.vendor.clone(),
                model: st.model.clone(),
                status: st.status.clone(),
                is_connected,
                last_heartbeat,
                seconds_since_heartbeat,
                total_transactions: total_tx,
                total_energy_wh: total_energy,
            },
        );
        proof {
            assert(is_connected == conn.contains(st.id@));
        }
        i = i + 1;
    }
    StationUptimeResponse { stations: out }
}

} // verus!
