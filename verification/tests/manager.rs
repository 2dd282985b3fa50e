use session_mux::manager::{RouteError, WebsocketManager};
use tokio::sync::mpsc::unbounded_channel;
use tokio_tungstenite::tungstenite::Message;

fn text(s: &str) -> Message {
    Message::Text(s.into())
}

#[test]
fn send_reaches_the_registered_channel() {
    let mut manager = WebsocketManager::new();
    let (tx, mut rx) = unbounded_channel::<Message>();
    manager.register(1, tx);
    assert_eq!(manager.send_message(1, "hello".to_string()), Ok(()));
    assert_eq!(rx.try_recv().unwrap(), text("hello"));
    assert!(rx.try_recv().is_err());
}

#[test]
fn send_to_unknown_session_fails() {
    let mut manager = WebsocketManager::new();
    assert_eq!(
        manager.send_message(9, "hello".to_string()),
        Err("client not found".to_string())
    );
    let (tx, mut rx) = unbounded_channel::<Message>();
    manager.register(1, tx);
    assert_eq!(
        manager.send_message(2, "hello".to_string()),
        Err("client not found".to_string())
    );
    assert!(rx.try_recv().is_err());
}

#[test]
fn send_to_closed_channel_reports_the_channel() {
    let mut manager = WebsocketManager::new();
    let (tx, rx) = unbounded_channel::<Message>();
    manager.register(1, tx);
    drop(rx);
    assert_eq!(
        manager.send_message(1, "hello".to_string()),
        Err("channel closed".to_string())
    );
    assert!(manager.is_registered(1));
}

#[test]
fn sends_arrive_in_order() {
    let mut manager = WebsocketManager::new();
    let (tx, mut rx) = unbounded_channel::<Message>();
    manager.register(7, tx);
    for payload in ["m1", "m2", "m3", "m4"] {
        assert!(manager.send_message(7, payload.to_string()).is_ok());
    }
    for payload in ["m1", "m2", "m3", "m4"] {
        assert_eq!(rx.try_recv().unwrap(), text(payload));
    }
    assert!(rx.try_recv().is_err());
}

#[test]
fn sessions_do_not_see_each_other() {
    let mut manager = WebsocketManager::new();
    let (tx_a, mut rx_a) = unbounded_channel::<Message>();
    let (tx_b, mut rx_b) = unbounded_channel::<Message>();
    manager.register(1, tx_a);
    manager.register(2, tx_b);
    assert!(manager.send_message(1, "a1".to_string()).is_ok());
    assert!(manager.send_message(2, "b1".to_string()).is_ok());
    assert!(manager.send_message(1, "a2".to_string()).is_ok());
    assert_eq!(rx_a.try_recv().unwrap(), text("a1"));
    assert_eq!(rx_a.try_recv().unwrap(), text("a2"));
    assert!(rx_a.try_recv().is_err());
    assert_eq!(rx_b.try_recv().unwrap(), text("b1"));
    assert!(rx_b.try_recv().is_err());
}

#[test]
fn unregister_twice_is_harmless() {
    let mut manager = WebsocketManager::new();
    let (tx, _rx) = unbounded_channel::<Message>();
    manager.register(1, tx);
    assert!(manager.is_registered(1));
    manager.unregister(1);
    assert!(!manager.is_registered(1));
    manager.unregister(1);
    assert!(!manager.is_registered(1));
    assert_eq!(
        manager.send_message(1, "late".to_string()),
        Err("client not found".to_string())
    );
}

#[test]
fn register_again_replaces_the_channel() {
    let mut manager = WebsocketManager::new();
    let (tx_old, mut rx_old) = unbounded_channel::<Message>();
    let (tx_new, mut rx_new) = unbounded_channel::<Message>();
    manager.register(1, tx_old);
    manager.register(1, tx_new);
    assert!(manager.send_message(1, "x".to_string()).is_ok());
    assert_eq!(rx_new.try_recv().unwrap(), text("x"));
    assert!(rx_old.try_recv().is_err());
}

#[test]
fn route_without_binding_fails_and_changes_nothing() {
    let mut manager = WebsocketManager::new();
    let (tx, mut rx) = unbounded_channel::<Message>();
    manager.register(1, tx);
    assert_eq!(manager.route(1, "ls\n".to_string()), Err(RouteError::NotBound));
    assert!(!manager.has_terminal_input(1));
    assert!(manager.is_registered(1));
    assert!(rx.try_recv().is_err());
}

#[test]
fn route_reaches_the_bound_channel() {
    let mut manager = WebsocketManager::new();
    let (input, mut keys) = unbounded_channel::<String>();
    manager.set_terminal_input(1, input);
    assert!(manager.has_terminal_input(1));
    assert_eq!(manager.route(1, "ls\n".to_string()), Ok(()));
    assert_eq!(manager.route(1, "pwd\n".to_string()), Ok(()));
    assert_eq!(keys.try_recv().unwrap(), "ls\n");
    assert_eq!(keys.try_recv().unwrap(), "pwd\n");
    assert!(keys.try_recv().is_err());
}

#[test]
fn second_binding_replaces_the_first() {
    let mut manager = WebsocketManager::new();
    let (first, mut first_keys) = unbounded_channel::<String>();
    let (second, mut second_keys) = unbounded_channel::<String>();
    manager.set_terminal_input(1, first);
    manager.set_terminal_input(1, second);
    assert_eq!(manager.route(1, "whoami\n".to_string()), Ok(()));
    assert_eq!(second_keys.try_recv().unwrap(), "whoami\n");
    assert!(second_keys.try_recv().is_err());
    assert!(first_keys.try_recv().is_err());
    manager.remove_terminal_input(1);
    assert!(!manager.has_terminal_input(1));
    assert_eq!(manager.route(1, "x".to_string()), Err(RouteError::NotBound));
}

#[test]
fn route_to_closed_binding_reports_the_channel() {
    let mut manager = WebsocketManager::new();
    let (input, keys) = unbounded_channel::<String>();
    manager.set_terminal_input(1, input);
    drop(keys);
    assert_eq!(manager.route(1, "x".to_string()), Err(RouteError::ChannelClosed));
    assert!(manager.has_terminal_input(1));
}

#[test]
fn remove_terminal_input_twice_is_harmless() {
    let mut manager = WebsocketManager::new();
    let (input, _keys) = unbounded_channel::<String>();
    manager.set_terminal_input(3, input);
    manager.remove_terminal_input(3);
    manager.remove_terminal_input(3);
    assert!(!manager.has_terminal_input(3));
}

#[test]
fn teardown_forgets_session_and_binding() {
    let mut manager = WebsocketManager::new();
    let (tx, _rx) = unbounded_channel::<Message>();
    let (input, _keys) = unbounded_channel::<String>();
    let (other, mut other_rx) = unbounded_channel::<Message>();
    manager.register(1, tx);
    manager.set_terminal_input(1, input);
    manager.register(2, other);
    manager.teardown(1);
    assert!(!manager.is_registered(1));
    assert!(!manager.has_terminal_input(1));
    assert!(manager.is_registered(2));
    assert!(manager.send_message(2, "still here".to_string()).is_ok());
    assert_eq!(other_rx.try_recv().unwrap(), text("still here"));
}
