use session_mux::heartbeat::{Heartbeat, MAX_PROBE_FAILURES, PROBE_PAYLOAD, PROBE_PERIOD_SECS};
use tokio::sync::mpsc::unbounded_channel;
use tokio_tungstenite::tungstenite::Message;

#[test]
fn heartbeat_constants() {
    assert_eq!(PROBE_PERIOD_SECS, 5);
    assert_eq!(MAX_PROBE_FAILURES, 3);
    assert_eq!(PROBE_PAYLOAD, "ping");
}

#[test]
fn three_failures_in_a_row_give_up() {
    let mut heartbeat = Heartbeat::new();
    assert!(heartbeat.record(false));
    assert_eq!(heartbeat.consecutive_failures(), 1);
    assert!(heartbeat.record(false));
    assert_eq!(heartbeat.consecutive_failures(), 2);
    assert!(!heartbeat.is_expired());
    assert!(!heartbeat.record(false));
    assert_eq!(heartbeat.consecutive_failures(), 3);
    assert!(heartbeat.is_expired());
}

#[test]
fn success_after_two_failures_starts_anew() {
    let mut heartbeat = Heartbeat::new();
    assert!(heartbeat.record(false));
    assert!(heartbeat.record(false));
    assert!(heartbeat.record(true));
    assert_eq!(heartbeat.consecutive_failures(), 0);
    assert!(!heartbeat.is_expired());
    assert!(heartbeat.record(false));
    assert!(heartbeat.record(false));
    assert_eq!(heartbeat.consecutive_failures(), 2);
    assert!(!heartbeat.is_expired());
}

#[test]
fn expired_heartbeat_stays_expired() {
    let mut heartbeat = Heartbeat::new();
    for _ in 0..3 {
        heartbeat.record(false);
    }
    assert!(!heartbeat.record(true));
    assert!(heartbeat.is_expired());
    assert_eq!(heartbeat.consecutive_failures(), 3);
    assert!(!heartbeat.record(false));
    assert_eq!(heartbeat.consecutive_failures(), 3);
}

#[test]
fn probe_puts_a_ping_on_the_channel() {
    let (tx, mut rx) = unbounded_channel::<Message>();
    let mut heartbeat = Heartbeat::new();
    assert!(heartbeat.probe(&tx));
    assert!(heartbeat.probe(&tx));
    assert_eq!(heartbeat.consecutive_failures(), 0);
    assert_eq!(rx.try_recv().unwrap(), Message::Ping("ping".into()));
    assert_eq!(rx.try_recv().unwrap(), Message::Ping("ping".into()));
    assert!(rx.try_recv().is_err());
}

#[test]
fn probes_into_a_closed_channel_give_up_at_the_third() {
    let (tx, rx) = unbounded_channel::<Message>();
    drop(rx);
    let mut heartbeat = Heartbeat::new();
    assert!(heartbeat.probe(&tx));
    assert!(heartbeat.probe(&tx));
    assert!(!heartbeat.probe(&tx));
    assert!(heartbeat.is_expired());
}

#[test]
fn probe_resets_the_count_when_the_channel_takes_it() {
    let (dead, dead_rx) = unbounded_channel::<Message>();
    drop(dead_rx);
    let (live, mut live_rx) = unbounded_channel::<Message>();
    let mut heartbeat = Heartbeat::new();
    assert!(heartbeat.probe(&dead));
    assert!(heartbeat.probe(&dead));
    assert_eq!(heartbeat.consecutive_failures(), 2);
    assert!(heartbeat.probe(&live));
    assert_eq!(heartbeat.consecutive_failures(), 0);
    assert!(live_rx.try_recv().is_ok());
}

#[test]
fn expired_heartbeat_sends_nothing() {
    let (tx, mut rx) = unbounded_channel::<Message>();
    let mut heartbeat = Heartbeat::new();
    for _ in 0..3 {
        heartbeat.record(false);
    }
    assert!(!heartbeat.probe(&tx));
    assert!(rx.try_recv().is_err());
}
