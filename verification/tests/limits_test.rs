use std::time::Duration;
use websocket_builder::connection::{
    connection_limiter, permit_from_answer, try_acquire_connection_permit, ConnectionPermit,
};
use websocket_builder::websocket_builder::HandlerSettings;

#[test]
fn test_semaphore_connection_limiting() {
    let limiter = connection_limiter(Some(2));
    assert!(limiter.is_some());

    let permit1 = try_acquire_connection_permit(&limiter);
    assert!(matches!(permit1, ConnectionPermit::Granted(_)));
    let _permit2 = try_acquire_connection_permit(&limiter);
    assert!(matches!(_permit2, ConnectionPermit::Granted(_)));

    // Third should fail - no more permits available
    assert!(matches!(try_acquire_connection_permit(&limiter), ConnectionPermit::Rejected));

    // Drop first permit
    drop(permit1);

    // Now we should be able to acquire again
    assert!(matches!(try_acquire_connection_permit(&limiter), ConnectionPermit::Granted(_)));
}

#[test]
fn no_limit_admits_everyone() {
    let limiter = connection_limiter(None);
    assert!(limiter.is_none());
    for _ in 0..1000 {
        assert!(matches!(try_acquire_connection_permit(&limiter), ConnectionPermit::Unlimited));
    }
}

#[test]
fn handler_settings_defaults_and_setters() {
    let s = HandlerSettings::new();
    assert_eq!(s.channel_size, 100);
    assert_eq!(s.max_connection_time, None);
    assert_eq!(s.max_connections, None);

    let s = HandlerSettings::new()
        .with_channel_size(50)
        .with_max_connection_time(Duration::from_secs(30))
        .with_max_connections(100);
    assert_eq!(s.channel_size, 50);
    assert_eq!(s.max_connection_time, Some(Duration::from_secs(30)));
    assert_eq!(s.max_connections, Some(100));

    let s = HandlerSettings::new().with_channel_size(1_000_000).with_max_connections(1_000_000);
    assert_eq!(s.channel_size, 1_000_000);
    assert_eq!(s.max_connections, Some(1_000_000));
}

#[test]
fn answer_maps_to_admission() {
    assert!(matches!(permit_from_answer(None), ConnectionPermit::Rejected));
    let semaphore = std::sync::Arc::new(tokio::sync::Semaphore::new(1));
    let permit = semaphore.clone().try_acquire_owned().ok();
    let admitted = permit_from_answer(permit);
    assert!(matches!(admitted, ConnectionPermit::Granted(_)));
    // The granted permit was kept: none is left.
    assert_eq!(semaphore.available_permits(), 0);
}

#[test]
fn limiter_has_the_configured_permits() {
    let limiter = connection_limiter(Some(3)).unwrap();
    assert_eq!(limiter.available_permits(), 3);
    let zero = connection_limiter(Some(0)).unwrap();
    assert_eq!(zero.available_permits(), 0);
}
