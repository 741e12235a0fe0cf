use texnouz_csms::rate_limit::WsRateLimiter;
use texnouz_csms::session::{Connection, SessionManager};
use tokio::sync::mpsc::{unbounded_channel, UnboundedReceiver, UnboundedSender};

const SEC: i64 = 1_000_000_000;

fn channel() -> (UnboundedSender<String>, UnboundedReceiver<String>) {
    unbounded_channel::<String>()
}

#[test]
fn register_then_unregister() {
    let mut sessions = SessionManager::new();
    let (tx, _rx) = channel();
    let id = sessions.register("CP-1".to_string(), tx, 100);
    assert_eq!(id, "CP-1");
    assert!(sessions.is_connected("CP-1"));
    assert_eq!(sessions.connection_count(), 1);
    assert!(sessions.unregister("CP-1"));
    assert!(!sessions.is_connected("CP-1"));
    assert!(!sessions.unregister("CP-1"));
    assert_eq!(sessions.connection_count(), 0);
}

#[test]
fn register_replaces_previous_session() {
    let mut sessions = SessionManager::new();
    let (tx1, mut rx1) = channel();
    let (tx2, mut rx2) = channel();
    let (tx3, mut rx3) = channel();
    sessions.register("CP-1".to_string(), tx1, 10);
    sessions.register("CP-2".to_string(), tx2, 20);
    sessions.register("CP-1".to_string(), tx3, 30);
    assert_eq!(sessions.connection_count(), 2);
    let mut ids = sessions.connected_ids();
    ids.sort();
    assert_eq!(ids, vec!["CP-1".to_string(), "CP-2".to_string()]);
    assert!(sessions.send_to("CP-1", "hello".to_string()).is_ok());
    assert_eq!(rx3.try_recv().ok().as_deref(), Some("hello"));
    assert!(rx1.try_recv().is_err());
    sessions.broadcast("all");
    assert_eq!(rx2.try_recv().ok().as_deref(), Some("all"));
    assert_eq!(rx3.try_recv().ok().as_deref(), Some("all"));
}

#[test]
fn sending_to_absent_or_closed_connections() {
    let mut sessions = SessionManager::new();
    assert_eq!(
        sessions.send_to("nobody", "x".to_string()),
        Err("Charge point not connected: nobody".to_string())
    );
    let (tx, rx) = channel();
    sessions.register("A".to_string(), tx, 0);
    drop(rx);
    let err = sessions.send_to("A", "x".to_string()).unwrap_err();
    assert!(err.starts_with("Failed to send message: "));
}

#[test]
fn unregister_and_touch_leave_others() {
    let mut sessions = SessionManager::new();
    let (a, _ra) = channel();
    let (b, _rb) = channel();
    sessions.register("A".to_string(), a, 0);
    sessions.register("B".to_string(), b, 0);
    sessions.touch("A", 99);
    sessions.touch("missing", 99);
    sessions.unregister("A");
    assert!(sessions.is_connected("B"));
    assert!(!sessions.is_connected("A"));
    assert_eq!(sessions.connection_count(), 1);
}

#[test]
fn connection_staleness_counts_whole_seconds() {
    let (tx, _rx) = channel();
    let mut c = Connection::new("CP".to_string(), tx, 0);
    assert!(!c.is_stale(10, 10 * SEC));
    assert!(!c.is_stale(10, 11 * SEC - 1));
    assert!(c.is_stale(10, 11 * SEC));
    c.touch(5 * SEC);
    assert_eq!(c.last_activity, 5 * SEC);
    assert_eq!(c.connected_at, 0);
    assert!(!c.is_stale(10, 15 * SEC));
    assert!(!c.is_stale(0, 4 * SEC));
}

const MS: u64 = 1_000_000;

#[test]
fn rate_limiter_admits_up_to_limit_per_window() {
    let mut limiter = WsRateLimiter::new(2);
    assert!(limiter.check("10.0.0.1", 1_000 * MS));
    assert!(limiter.check("10.0.0.1", 2_000 * MS));
    assert!(!limiter.check("10.0.0.1", 3_000 * MS));
    // another client is counted apart
    assert!(limiter.check("10.0.0.2", 3_000 * MS));
    // the first admission leaves the window 60 seconds after it
    assert!(!limiter.check("10.0.0.1", 61_000 * MS - 1));
    assert!(limiter.check("10.0.0.1", 61_000 * MS));
    assert!(!limiter.check("10.0.0.1", 61_500 * MS));
}

#[test]
fn rate_limiter_window_is_kept_below_a_millisecond() {
    let mut limiter = WsRateLimiter::new(1);
    assert!(limiter.check("ip", 200_000));
    // 59 999.2 ms later the first admission still counts
    assert!(!limiter.check("ip", 200_000 + 59_999_200_000));
    assert!(limiter.check("ip", 200_000 + 60_000_000_000));
}

#[test]
fn rate_limiter_with_zero_limit_refuses_all() {
    let mut limiter = WsRateLimiter::new(0);
    assert!(!limiter.check("k", 0));
    assert!(!limiter.check("k", 1_000_000));
}
