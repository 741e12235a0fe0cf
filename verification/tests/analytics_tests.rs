use texnouz_csms::analytics::{
    bucket_key, energy_breakdown, summary_window, lookback_days, peak_hours, revenue_breakdown, station_uptime,
    summarize, utc_hour, StationSample, TransactionSample,
};

// 2024-01-15T10:30:00Z and 2024-02-03T22:00:00Z
const JAN_15: i64 = 1_705_314_600;
const FEB_03: i64 = 1_706_997_600;

fn sample(cp: &str, start: i64, energy: Option<i32>, cost: Option<i32>, cur: Option<&str>) -> TransactionSample {
    TransactionSample {
        charge_point_id: cp.to_string(),
        started_at: start,
        stopped_at: Some(start + 3600),
        energy_consumed: energy,
        total_cost: cost,
        currency: cur.map(String::from),
    }
}

#[test]
fn summary_sums_present_values() {
    let today = vec![sample("A", JAN_15, Some(100), Some(10), None)];
    let month = vec![
        sample("A", JAN_15, Some(100), Some(10), Some("USD")),
        sample("B", JAN_15, None, Some(5), None),
    ];
    let s = summarize(4, 1, 2, &today, &month);
    assert_eq!((s.total_stations, s.stations_online, s.stations_offline), (4, 1, 3));
    assert_eq!(s.active_transactions, 2);
    assert_eq!(s.transactions_today, 1);
    assert_eq!((s.revenue_today, s.energy_today_wh), (10, 100));
    assert_eq!((s.revenue_month, s.energy_month_wh), (15, 100));
    assert_eq!(s.currency, "USD");
    let s = summarize(1, 3, 0, &vec![], &vec![]);
    assert_eq!(s.stations_offline, 0);
    assert_eq!(s.currency, "UZS");
}

#[test]
fn period_labels() {
    assert_eq!(lookback_days("month"), 365);
    assert_eq!(lookback_days("week"), 90);
    assert_eq!(lookback_days("day"), 30);
    assert_eq!(bucket_key("day", JAN_15), "2024-01-15");
    assert_eq!(bucket_key("month", JAN_15), "2024-01");
    assert_eq!(bucket_key("week", JAN_15), "2024-W03");
    assert_eq!(bucket_key("week", 0), "1970-W01");
    assert_eq!(bucket_key("month", -86_400), "1969-12");
}

#[test]
fn utc_hours() {
    assert_eq!(utc_hour(JAN_15), 10);
    assert_eq!(utc_hour(FEB_03), 22);
    assert_eq!(utc_hour(-1), 23);
}

#[test]
fn revenue_buckets_add_up() {
    let rows = vec![
        sample("A", FEB_03, Some(10), Some(300), Some("UZS")),
        sample("A", JAN_15, Some(20), Some(100), None),
        sample("B", JAN_15 + 60, Some(30), Some(50), None),
        sample("B", JAN_15, Some(40), None, None),
    ];
    let r = revenue_breakdown("month".to_string(), &rows);
    assert_eq!(r.granularity, "month");
    let got: Vec<(String, i64, u64)> =
        r.buckets.iter().map(|b| (b.period.clone(), b.revenue, b.transaction_count)).collect();
    assert_eq!(got, vec![("2024-01".to_string(), 150, 3), ("2024-02".to_string(), 300, 1)]);
    assert_eq!(r.total_revenue, 450);
    assert_eq!(r.total_revenue, r.buckets.iter().map(|b| b.revenue).sum::<i64>());
    assert_eq!(r.currency, "UZS");
    let e = energy_breakdown("day".to_string(), &rows);
    let got: Vec<(String, i64, u64)> =
        e.buckets.iter().map(|b| (b.period.clone(), b.energy_wh, b.transaction_count)).collect();
    assert_eq!(got, vec![("2024-01-15".to_string(), 90, 3), ("2024-02-03".to_string(), 10, 1)]);
    assert_eq!(e.total_energy_wh, 100);
}

#[test]
fn peak_hours_pick_last_busiest() {
    let rows = vec![
        sample("A", JAN_15, Some(5), None, None),
        sample("A", FEB_03, Some(7), None, None),
    ];
    let p = peak_hours(&rows);
    assert_eq!(p.hours.len(), 24);
    assert_eq!(p.hours[10].transaction_count, 1);
    assert_eq!(p.hours[22].energy_wh, 7);
    assert_eq!(p.busiest_hour, 22);
    let p = peak_hours(&vec![]);
    assert_eq!(p.busiest_hour, 23);
}

#[test]
fn station_uptime_entries() {
    let stations = vec![
        StationSample {
            id: "A".to_string(),
            vendor: "V".to_string(),
            model: "M".to_string(),
            status: "Available".to_string(),
            last_heartbeat: Some(1_704_067_200_000_000_000),
        },
        StationSample {
            id: "B".to_string(),
            vendor: "V".to_string(),
            model: "M".to_string(),
            status: "Offline".to_string(),
            last_heartbeat: None,
        },
    ];
    let completed = vec![sample("A", JAN_15, Some(100), None, None), sample("A", JAN_15, None, None, None)];
    let connected = vec!["A".to_string()];
    let now = 1_704_067_200_000_000_000 + 90_500_000_000;
    let r = station_uptime(stations, &completed, &connected, now);
    assert_eq!(r.stations.len(), 2);
    let a = &r.stations[0];
    assert!(a.is_connected);
    assert_eq!(a.last_heartbeat.as_deref(), Some("2024-01-01T00:00:00+00:00"));
    assert_eq!(a.seconds_since_heartbeat, Some(90));
    assert_eq!((a.total_transactions, a.total_energy_wh), (2, 100));
    let b = &r.stations[1];
    assert!(!b.is_connected);
    assert!(b.last_heartbeat.is_none());
    assert_eq!((b.total_transactions, b.total_energy_wh), (0, 0));
}

#[test]
fn summary_day_and_month_starts() {
    assert_eq!(summary_window(JAN_15), (1_705_276_800, 1_704_067_200));
    assert_eq!(summary_window(1_704_067_200), (1_704_067_200, 1_704_067_200));
    assert_eq!(summary_window(-1), (-86_400, -2_678_400));
}

#[test]
fn summary_currency_is_that_of_the_latest_stop() {
    let mut late = sample("A", FEB_03, Some(1), Some(1), Some("EUR"));
    late.stopped_at = Some(FEB_03 + 7200);
    let early = sample("B", JAN_15, Some(1), Some(1), Some("USD"));
    let unpriced = sample("C", FEB_03 + 99_999, Some(1), Some(1), None);
    let s = summarize(1, 1, 0, &vec![], &vec![late, early, unpriced]);
    assert_eq!(s.currency, "EUR");
}
