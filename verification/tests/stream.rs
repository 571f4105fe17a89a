use agent_gateway::observer::{announce, Elapsed, ObserverEvent};
use agent_gateway::payload::decrypt_payload;
use agent_gateway::stream::{event_data, open_event_stream, open_telemetry_stream};
use agent_gateway::telemetry::TelemetryServer;
use serde_json::Value;
use tokio::sync::broadcast::channel;

const KEY: &str = "gIGCg4SFhoeIiYqLjI2Oj5CRkpOUlZaXmJmam5ydnp8=";

fn is_abc(token: &str) -> bool {
    token == "abc"
}

fn json(text: &str) -> Value {
    serde_json::from_str(text).unwrap()
}

#[test]
fn event_stream_delivers_events() {
    let (tx, _) = channel(4);
    let mut rx = open_event_stream(&tx, true, Some("Bearer abc"), is_abc).unwrap();
    tx.send(Value::from("event")).unwrap();
    assert_eq!(rx.try_recv(), Ok(Value::from("event")));
}

#[test]
fn event_stream_is_closed_to_strangers() {
    let (tx, _) = channel(4);
    let refusal = open_event_stream(&tx, true, Some("Bearer xyz"), is_abc).unwrap_err();
    assert_eq!(refusal.status, 401);
    assert_eq!(tx.receiver_count(), 0);
    assert!(open_event_stream(&tx, false, None, is_abc).is_ok());
}

#[test]
fn telemetry_stream_delivers_telemetry() {
    let mut server = TelemetryServer::new();
    let mut rx = open_telemetry_stream(&mut server, true, Some("Bearer abc"), is_abc).unwrap();
    server.broadcast(Value::from("health"));
    assert_eq!(rx.try_recv(), Ok(Value::from("health")));
}

#[test]
fn telemetry_stream_is_unavailable_at_the_limit() {
    let mut server = TelemetryServer::new();
    let mut streams = Vec::new();
    for _ in 0..20 {
        streams.push(open_telemetry_stream(&mut server, false, None, is_abc).unwrap());
    }
    let refusal = open_telemetry_stream(&mut server, false, None, is_abc).unwrap_err();
    assert_eq!(refusal.status, 503);
    assert_eq!(
        refusal.body,
        "Telemetry unavailable: Maximum telemetry subscribers reached (20)"
    );
    server.unsubscribe();
    assert!(open_telemetry_stream(&mut server, false, None, is_abc).is_ok());
}

#[test]
fn refused_requests_take_no_place() {
    let mut server = TelemetryServer::new();
    for _ in 0..50 {
        let refusal = open_telemetry_stream(&mut server, true, None, is_abc).unwrap_err();
        assert_eq!(refusal.status, 401);
    }
    for _ in 0..20 {
        assert!(open_telemetry_stream(&mut server, true, Some("Bearer abc"), is_abc).is_ok());
    }
}

#[test]
fn credentials_come_before_the_limit() {
    let mut server = TelemetryServer::new();
    for _ in 0..20 {
        server.subscribe().unwrap();
    }
    let refusal = open_telemetry_stream(&mut server, true, None, is_abc).unwrap_err();
    assert_eq!(refusal.status, 401);
}

#[test]
fn event_data_is_compact_json() {
    let value = json("{ \"b\" : [ 1, -2, 0.5, null ], \"a\" : { \"c\" : true } }");
    assert_eq!(
        event_data(Some(value), None),
        Some("{\"a\":{\"c\":true},\"b\":[1,-2,0.5,null]}".to_string())
    );
}

#[test]
fn event_data_is_encrypted_under_the_secret() {
    let value = json("{\"type\":\"agent_start\"}");
    let data = event_data(Some(value.clone()), Some(KEY)).unwrap();
    let text = decrypt_payload(&data, KEY).unwrap();
    assert_eq!(text, "{\"type\":\"agent_start\"}");
    assert_eq!(json(&text), value);
    assert_eq!(event_data(Some(value), Some("bad")), Some(text));
}

#[test]
fn missed_events_are_skipped() {
    assert_eq!(event_data(None, None), None);
    assert_eq!(event_data(None, Some(KEY)), None);
}

#[test]
fn announcements_are_read_back() {
    let event: ObserverEvent<u8> = ObserverEvent::AgentEnd {
        provider: "p \"q\" \u{1f980}\n".to_string(),
        model: "m".to_string(),
        duration: Elapsed { secs: 1, nanos: 500_000_000 },
        tokens_used: None,
        cost_usd: Value::Null,
    };
    let value = announce(&event, "2024-01-01T00:00:00+00:00").unwrap();
    let data = event_data(Some(value.clone()), Some(KEY)).unwrap();
    assert_eq!(json(&decrypt_payload(&data, KEY).unwrap()), value);
    assert_eq!(json(&event_data(Some(value.clone()), None).unwrap()), value);
}

#[test]
fn objects_with_extraordinary_keys_are_written_as_they_are() {
    let mut value = Value::Object(serde_json::Map::new());
    value["$serde_json::private::RawValue"] = Value::from("1");
    assert_eq!(
        event_data(Some(value), None),
        Some("{\"$serde_json::private::RawValue\":\"1\"}".to_string())
    );
}

#[test]
fn streams_deliver_in_order_what_is_sent_after_they_open() {
    let mut server = TelemetryServer::new();
    let mut early = open_telemetry_stream(&mut server, false, None, is_abc).unwrap();
    server.broadcast(Value::from(1u64));
    let mut late = open_telemetry_stream(&mut server, false, None, is_abc).unwrap();
    server.broadcast(Value::from(2u64));
    server.broadcast(Value::from(3u64));
    let read = |rx: &mut tokio::sync::broadcast::Receiver<Value>| {
        let mut texts = Vec::new();
        while let Ok(value) = rx.try_recv() {
            texts.push(event_data(Some(value), None).unwrap());
        }
        texts
    };
    assert_eq!(read(&mut early), vec!["1", "2", "3"]);
    assert_eq!(read(&mut late), vec!["2", "3"]);
}
