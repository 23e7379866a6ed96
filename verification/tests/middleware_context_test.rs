use websocket_builder::middleware_context::{
    available_slots, bypass_index, connection_step, inbound_step, outbound_step,
};
use websocket_builder::{MessageSender, TrySendError, WebsocketError};

#[test]
fn forward_walk_visits_in_order() {
    let len = 3;
    let mut visited = vec![0usize];
    let mut index = 0;
    while let Some(next) = connection_step(index, len) {
        visited.push(next);
        index = next;
    }
    assert_eq!(visited, vec![0, 1, 2]);
    assert_eq!(connection_step(0, 1), None);
}

#[test]
fn inbound_walk_stops_without_message() {
    assert_eq!(inbound_step(true, 0, 2), Some(1));
    assert_eq!(inbound_step(false, 0, 2), None);
    assert_eq!(inbound_step(false, 0, 0), None);
    assert_eq!(inbound_step(true, 1, 2), None);
}

#[test]
fn outbound_walk_is_reverse() {
    let mut visited = vec![2usize];
    let mut index = 2;
    while let Some(next) = outbound_step(index) {
        visited.push(next);
        index = next;
    }
    assert_eq!(visited, vec![2, 1, 0]);
}

#[test]
fn bypass_starts_at_previous_middleware() {
    assert_eq!(bypass_index(3), 2);
    assert_eq!(bypass_index(1), 0);
    assert_eq!(bypass_index(0), 0);
}

#[test]
fn sender_tags_messages_and_returns_them_on_failure() {
    let (tx, rx) = flume::bounded::<(String, usize)>(1);
    let mut sender = MessageSender::new(tx, 2);
    assert!(sender.send("first".to_string()).is_ok());
    assert_eq!(rx.try_recv().unwrap(), ("first".to_string(), 2));
    assert!(sender.send_bypass("second".to_string()).is_ok());
    assert_eq!(rx.try_recv().unwrap(), ("second".to_string(), 1));
    assert_eq!(sender.capacity(), Some(1));
    assert!(sender.send("fills".to_string()).is_ok());
    assert_eq!(sender.capacity(), Some(0));
    match sender.send("overflow".to_string()) {
        Err(TrySendError::Full(payload)) => assert_eq!(payload, ("overflow".to_string(), 2)),
        other => panic!("unexpected {other:?}"),
    }
    drop(rx);
    match sender.send_bypass("late".to_string()) {
        Err(e @ TrySendError::Disconnected(_)) => assert_eq!(e.into_inner(), ("late".to_string(), 1)),
        other => panic!("unexpected {other:?}"),
    }
}

#[test]
fn available_slots_subtract_the_queue() {
    assert_eq!(available_slots(Some(10), 3), Some(7));
    assert_eq!(available_slots(Some(2), 5), Some(0));
    assert_eq!(available_slots(None, 5), None);
    let (tx, _rx) = flume::unbounded::<(u8, usize)>();
    assert_eq!(MessageSender::new(tx, 0).capacity(), None);
}

#[test]
fn websocket_error_get_state_returns_carried_state() {
    let errors: Vec<WebsocketError<u32>> = vec![
        WebsocketError::IoError(std::io::Error::new(std::io::ErrorKind::Other, "io"), 42),
        WebsocketError::InvalidTargetUrl(42),
        WebsocketError::InboundMessageConversionError(anyhow::Error::msg("bad"), 42),
        WebsocketError::OutboundMessageConversionError(anyhow::Error::msg("bad"), 42),
        WebsocketError::HandlerError(anyhow::Error::msg("handler"), 42),
        WebsocketError::MissingMiddleware(42),
        WebsocketError::MaxConnectionsExceeded(42),
        WebsocketError::WebsocketError(anyhow::Error::msg("ws"), 42),
        WebsocketError::NoClosingHandshake(anyhow::Error::msg("gone"), 42),
        WebsocketError::UnsupportedBinaryMessage(42),
    ];
    for error in errors {
        assert_eq!(error.get_state(), 42);
    }
}
