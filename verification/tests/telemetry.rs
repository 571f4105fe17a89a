use agent_gateway::telemetry::{
    broadcast_health, TelemetryError, TelemetryServer, MAX_TELEMETRY_SUBSCRIBERS,
};
use serde_json::Value;
use tokio::sync::broadcast::error::TryRecvError;

#[test]
fn limit_is_twenty_subscribers() {
    assert_eq!(MAX_TELEMETRY_SUBSCRIBERS, 20);
    let mut server = TelemetryServer::new();
    let mut receivers = Vec::new();
    for _ in 0..20 {
        receivers.push(server.subscribe().unwrap());
    }
    assert!(matches!(server.subscribe(), Err(TelemetryError::LimitReached)));
    assert!(matches!(server.subscribe(), Err(TelemetryError::LimitReached)));
    server.unsubscribe();
    assert!(server.subscribe().is_ok());
    assert!(server.subscribe().is_err());
}

#[test]
fn limit_error_says_the_limit() {
    assert_eq!(
        TelemetryError::LimitReached.message(),
        "Maximum telemetry subscribers reached (20)"
    );
}

#[test]
fn subscribers_get_what_is_broadcast_after_they_came() {
    let mut server = TelemetryServer::new();
    let mut first = server.subscribe().unwrap();
    server.broadcast(Value::from("one"));
    let mut second = server.subscribe().unwrap();
    broadcast_health(&mut server, Value::from("two"));
    assert_eq!(first.try_recv(), Ok(Value::from("one")));
    assert_eq!(first.try_recv(), Ok(Value::from("two")));
    assert_eq!(first.try_recv(), Err(TryRecvError::Empty));
    assert_eq!(second.try_recv(), Ok(Value::from("two")));
    assert_eq!(second.try_recv(), Err(TryRecvError::Empty));
}

#[test]
fn nothing_is_broadcast_without_subscribers() {
    let mut server = TelemetryServer::new();
    let mut receiver = server.subscribe().unwrap();
    server.unsubscribe();
    server.broadcast(Value::from("unheard"));
    broadcast_health(&mut server, Value::from("unheard"));
    assert_eq!(receiver.try_recv(), Err(TryRecvError::Empty));
}

#[test]
fn slow_subscribers_lose_the_oldest_values() {
    let mut server = TelemetryServer::new();
    let mut receiver = server.subscribe().unwrap();
    for i in 0..200u64 {
        server.broadcast(Value::from(i));
    }
    assert!(matches!(receiver.try_recv(), Err(TryRecvError::Lagged(_))));
    assert!(receiver.len() >= 100);
}

#[test]
fn leaving_without_having_come_wraps_the_count() {
    let mut server = TelemetryServer::new();
    server.unsubscribe();
    assert!(server.subscribe().is_err());
}
