use texnouz_csms::transactions::{
    ascii_lowercase, list_transactions, status_matches, transaction_counts, Timestamp,
    TransactionFilter, TransactionInfo, TransactionStatus,
};

fn at(secs: i64) -> Timestamp {
    Timestamp { secs, nanos: 0 }
}

fn tx(id: i32, status: TransactionStatus, secs: i64, energy: Option<i32>) -> TransactionInfo {
    TransactionInfo { id, status, started_at: at(secs), energy_wh: energy }
}

fn rows() -> Vec<TransactionInfo> {
    vec![
        tx(1, TransactionStatus::Completed, 100, Some(1000)),
        tx(2, TransactionStatus::Active, 200, None),
        tx(3, TransactionStatus::Completed, 300, Some(500)),
        tx(4, TransactionStatus::Failed, 400, Some(7)),
        tx(5, TransactionStatus::Completed, 500, None),
    ]
}

fn no_filter() -> TransactionFilter {
    TransactionFilter { status: None, from_date: None, to_date: None }
}

#[test]
fn timestamps_order() {
    assert!(at(1).is_before(&at(2)));
    assert!(Timestamp { secs: 1, nanos: 5 }.is_before(&Timestamp { secs: 1, nanos: 6 }));
    assert!(!at(2).is_before(&at(2)));
}

#[test]
fn status_filter_ignores_ascii_case() {
    assert_eq!(ascii_lowercase("AcTiVe-Ä"), "active-Ä".chars().collect::<Vec<char>>());
    assert!(status_matches("COMPLETED", TransactionStatus::Completed));
    assert!(status_matches("failed", TransactionStatus::Failed));
    assert!(!status_matches("done", TransactionStatus::Completed));
}

#[test]
fn listing_pages_through_all() {
    let (ids, total) = list_transactions(&rows(), &no_filter(), 1, 2);
    assert_eq!((ids, total), (vec![1, 2], 5));
    let (ids, _) = list_transactions(&rows(), &no_filter(), 3, 2);
    assert_eq!(ids, vec![5]);
    let (ids, total) = list_transactions(&rows(), &no_filter(), 4, 2);
    assert!(ids.is_empty());
    assert_eq!(total, 5);
}

#[test]
fn listing_filters_by_status_and_dates() {
    let f = TransactionFilter { status: Some("Completed".to_string()), from_date: None, to_date: None };
    let (ids, total) = list_transactions(&rows(), &f, 1, 10);
    assert_eq!((ids, total), (vec![1, 3, 5], 3));
    let f = TransactionFilter { status: None, from_date: Some(at(200)), to_date: Some(at(400)) };
    let (ids, total) = list_transactions(&rows(), &f, 1, 10);
    assert_eq!((ids, total), (vec![2, 3, 4], 3));
    let f = TransactionFilter { status: Some("unknown".to_string()), from_date: None, to_date: None };
    let (ids, total) = list_transactions(&rows(), &f, 1, 10);
    assert_eq!((ids, total), (vec![], 0));
}

#[test]
fn counts_and_energy() {
    let c = transaction_counts(&rows());
    assert_eq!((c.total, c.active, c.completed, c.completed_energy_wh), (5, 1, 3, 1500));
    let c = transaction_counts(&vec![]);
    assert_eq!((c.total, c.active, c.completed, c.completed_energy_wh), (0, 0, 0, 0));
}
