use agent_gateway::observer::{
    announce, BroadcastObserver, Elapsed, Observer, ObserverEvent, BROADCAST_NAME,
};
use serde_json::Value;
use std::sync::{Arc, Mutex};
use tokio::sync::broadcast::channel;
use tokio::sync::broadcast::error::TryRecvError;

/// Writes down what it is told.
struct Scribe {
    log: Arc<Mutex<Vec<String>>>,
}

impl Observer for Scribe {
    type Detail = u32;
    type Metric = i64;

    fn record_event(&mut self, event: &ObserverEvent<u32>) {
        let line = match event {
            ObserverEvent::LlmRequest { detail, .. } => format!("request {detail}"),
            ObserverEvent::ToolCall { tool, .. } => format!("call {tool}"),
            ObserverEvent::ToolCallStart { tool } => format!("start {tool}"),
            ObserverEvent::Error { message, .. } => format!("error {message}"),
            ObserverEvent::AgentStart { .. } => "agent start".to_string(),
            ObserverEvent::AgentEnd { .. } => "agent end".to_string(),
            ObserverEvent::Other(detail) => format!("other {detail}"),
        };
        self.log.lock().unwrap().push(line);
    }

    fn record_metric(&mut self, metric: &i64) {
        self.log.lock().unwrap().push(format!("metric {metric}"));
    }

    fn flush(&mut self) {
        self.log.lock().unwrap().push("flush".to_string());
    }

    fn name(&self) -> &str {
        "scribe"
    }
}

fn json(text: &str) -> Value {
    serde_json::from_str(text).unwrap()
}

fn text(s: &str) -> String {
    s.to_string()
}

#[test]
fn every_kind_of_announcement() {
    let cases: Vec<(ObserverEvent<u32>, &str)> = vec![
        (
            ObserverEvent::LlmRequest { provider: text("p"), model: text("m"), detail: 3 },
            "{\"type\":\"llm_request\",\"provider\":\"p\",\"model\":\"m\",\"timestamp\":\"t\"}",
        ),
        (
            ObserverEvent::ToolCall {
                tool: text("shell"),
                duration: Elapsed { secs: 2, nanos: 345_999_999 },
                success: true,
            },
            "{\"type\":\"tool_call\",\"tool\":\"shell\",\"duration_ms\":2345,\"success\":true,\"timestamp\":\"t\"}",
        ),
        (
            ObserverEvent::ToolCallStart { tool: text("shell") },
            "{\"type\":\"tool_call_start\",\"tool\":\"shell\",\"timestamp\":\"t\"}",
        ),
        (
            ObserverEvent::Error { component: text("c"), message: text("oops") },
            "{\"type\":\"error\",\"component\":\"c\",\"message\":\"oops\",\"timestamp\":\"t\"}",
        ),
        (
            ObserverEvent::AgentStart { provider: text("p"), model: text("m") },
            "{\"type\":\"agent_start\",\"provider\":\"p\",\"model\":\"m\",\"timestamp\":\"t\"}",
        ),
        (
            ObserverEvent::AgentEnd {
                provider: text("p"),
                model: text("m"),
                duration: Elapsed { secs: 0, nanos: 999_999 },
                tokens_used: Some(42),
                cost_usd: Value::from(0.25f64),
            },
            "{\"type\":\"agent_end\",\"provider\":\"p\",\"model\":\"m\",\"duration_ms\":0,\"tokens_used\":42,\"cost_usd\":0.25,\"timestamp\":\"t\"}",
        ),
        (
            ObserverEvent::AgentEnd {
                provider: text("p"),
                model: text("m"),
                duration: Elapsed { secs: 1, nanos: 0 },
                tokens_used: None,
                cost_usd: Value::Null,
            },
            "{\"type\":\"agent_end\",\"provider\":\"p\",\"model\":\"m\",\"duration_ms\":1000,\"tokens_used\":null,\"cost_usd\":null,\"timestamp\":\"t\"}",
        ),
    ];
    for (event, expected) in cases {
        assert_eq!(announce(&event, "t"), Some(json(expected)));
    }
    assert_eq!(announce(&ObserverEvent::Other(1u32), "t"), None);
}

#[test]
fn milliseconds_are_rounded_down() {
    assert_eq!(Elapsed { secs: 0, nanos: 1_999_999 }.as_millis(), 1);
    assert_eq!(Elapsed { secs: 3, nanos: 0 }.as_millis(), 3000);
    assert_eq!(
        Elapsed { secs: u64::MAX, nanos: 999_999_999 }.as_millis(),
        18_446_744_073_709_551_615_999
    );
}

#[test]
fn everything_is_passed_on_and_events_are_announced() {
    let log = Arc::new(Mutex::new(Vec::new()));
    let (tx, mut rx) = channel(8);
    let mut observer = BroadcastObserver::new(Scribe { log: log.clone() }, tx);
    observer.record_event(&ObserverEvent::ToolCallStart { tool: text("shell") });
    observer.record_metric(&7);
    observer.record_event(&ObserverEvent::Other(5));
    observer.flush();
    assert_eq!(
        *log.lock().unwrap(),
        vec![text("start shell"), text("metric 7"), text("other 5"), text("flush")]
    );
    let value = rx.try_recv().unwrap();
    assert_eq!(value["type"].as_str(), Some("tool_call_start"));
    assert_eq!(value["tool"].as_str(), Some("shell"));
    let timestamp = value["timestamp"].as_str().unwrap();
    assert!(chrono::DateTime::parse_from_rfc3339(timestamp).is_ok());
    assert!(timestamp.ends_with("+00:00"));
    assert_eq!(rx.try_recv(), Err(TryRecvError::Empty));
}

#[test]
fn announcing_to_nobody_is_no_failure() {
    let log = Arc::new(Mutex::new(Vec::new()));
    let (tx, _) = channel(8);
    let mut observer = BroadcastObserver::new(Scribe { log: log.clone() }, tx);
    observer.record_event(&ObserverEvent::AgentStart { provider: text("p"), model: text("m") });
    assert_eq!(*log.lock().unwrap(), vec![text("agent start")]);
}

#[test]
fn the_observer_has_a_name() {
    let (tx, _) = channel(8);
    let log = Arc::new(Mutex::new(Vec::new()));
    assert_eq!(BroadcastObserver::new(Scribe { log }, tx).name(), "broadcast");
    assert_eq!(BROADCAST_NAME, "broadcast");
}

#[test]
fn announcements_come_in_the_order_of_the_events() {
    let log = Arc::new(Mutex::new(Vec::new()));
    let (tx, mut rx) = channel(8);
    let mut observer = BroadcastObserver::new(Scribe { log }, tx);
    for tool in ["a", "b", "c"] {
        observer.record_event(&ObserverEvent::ToolCallStart { tool: text(tool) });
        observer.record_event(&ObserverEvent::Other(1));
    }
    for tool in ["a", "b", "c"] {
        assert_eq!(rx.try_recv().unwrap()["tool"].as_str(), Some(tool));
    }
    assert_eq!(rx.try_recv(), Err(TryRecvError::Empty));
}

#[test]
fn only_the_timestamp_differs() {
    let event: ObserverEvent<u32> = ObserverEvent::ToolCallStart { tool: text("shell") };
    let mut one = announce(&event, "t1").unwrap();
    let other = announce(&event, "t2").unwrap();
    assert_ne!(one, other);
    one["timestamp"] = Value::from("t2");
    assert_eq!(one, other);
}

#[test]
fn timestamps_have_their_form() {
    let log = Arc::new(Mutex::new(Vec::new()));
    let (tx, mut rx) = channel(8);
    let mut observer = BroadcastObserver::new(Scribe { log }, tx);
    observer.record_event(&ObserverEvent::ToolCallStart { tool: text("shell") });
    let value = rx.try_recv().unwrap();
    let timestamp = value["timestamp"].as_str().unwrap().as_bytes().to_vec();
    let fraction = timestamp.len() - 25;
    assert!([0, 4, 7, 10].contains(&fraction));
    let form = "dddd-dd-ddTdd:dd:dd".to_string()
        + if fraction > 0 { "." } else { "" }
        + &"d".repeat(fraction.saturating_sub(1));
    for (place, expected) in form.bytes().enumerate() {
        let found = timestamp[place];
        assert!(if expected == b'd' { found.is_ascii_digit() } else { found == expected });
    }
    assert_eq!(&timestamp[form.len()..], b"+00:00");
}

#[test]
fn other_events_are_passed_on_alone() {
    let log = Arc::new(Mutex::new(Vec::new()));
    let (tx, mut rx) = channel(8);
    let mut observer = BroadcastObserver::new(Scribe { log: log.clone() }, tx);
    observer.record_event(&ObserverEvent::Other(7));
    assert_eq!(*log.lock().unwrap(), vec!["other 7"]);
    assert_eq!(rx.try_recv(), Err(TryRecvError::Empty));
}
