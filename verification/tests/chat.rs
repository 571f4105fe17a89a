use agent_gateway::chat::{
    parse_request, provider_event, read_request, turn_messages, Action, ChatSession, Event, Phase,
    Request, Settings, Step,
};
use agent_gateway::payload::{decrypt_payload, encrypt_payload};
use serde_json::Value;

const KEY: &str = "gIGCg4SFhoeIiYqLjI2Oj5CRkpOUlZaXmJmam5ydnp8=";

const HELLO: &str = "{\"type\":\"message\",\"content\":\"Hello\"}";

/// The payload of [`HELLO`] under the nonce 0, 1, .., 11.
const HELLO_PAYLOAD: &str = "AAECAwQFBgcICQoLHpRPiQTSCgOwjy5ps75qR5d5+YFKI+DBUWnFcvGECmFMrmCDziemQ9w89QQBxEoHWSin4A==";

fn plain() -> Settings<'static> {
    Settings { secret: None, provider: Some("acme") }
}

fn encrypted() -> Settings<'static> {
    Settings { secret: Some(KEY), provider: Some("acme") }
}

fn json(text: &str) -> Value {
    serde_json::from_str(text).unwrap()
}

fn session() -> ChatSession {
    ChatSession::new("m-1".to_string())
}

fn is_quiet(step: &Step) -> bool {
    step.frame.is_none() && step.notice.is_none() && matches!(step.action, Action::Listen)
}

#[test]
fn a_turn_from_message_to_response() {
    let mut chat = session();
    let step = chat.step(Event::Text(HELLO.to_string()), &plain());
    assert_eq!(step.frame, None);
    assert_eq!(
        step.notice,
        Some(json("{\"type\":\"agent_start\",\"provider\":\"acme\",\"model\":\"m-1\"}"))
    );
    assert!(matches!(step.action, Action::Prepare(ref content) if content == "Hello"));
    assert!(matches!(chat.phase, Phase::Preparing(ref p) if p == "acme"));

    let step = chat.step(Event::Prepared, &plain());
    assert!(step.frame.is_none() && step.notice.is_none());
    assert!(matches!(step.action, Action::Ask));

    // Another provider is configured meanwhile.
    let later = Settings { secret: None, provider: Some("other") };
    let step = chat.step(Event::Answered("Hi \"you\"\n".to_string()), &later);
    assert_eq!(
        step.frame,
        Some("{\"full_response\":\"Hi \\\"you\\\"\\n\",\"type\":\"done\"}".to_string())
    );
    assert_eq!(
        step.notice,
        Some(json("{\"type\":\"agent_end\",\"provider\":\"acme\",\"model\":\"m-1\"}"))
    );
    assert!(matches!(step.action, Action::Listen));
    assert!(matches!(chat.phase, Phase::Listening));
}

#[test]
fn text_that_is_not_json_is_answered_with_an_error() {
    let mut chat = session();
    let step = chat.step(Event::Text("Hello".to_string()), &plain());
    assert_eq!(
        step.frame,
        Some("{\"message\":\"Invalid JSON\",\"type\":\"error\"}".to_string())
    );
    assert_eq!(step.notice, None);
    assert!(matches!(step.action, Action::Listen));
    assert!(matches!(chat.phase, Phase::Listening));
}

#[test]
fn what_is_no_message_is_passed_over() {
    let mut chat = session();
    for text in [
        "{\"type\":\"ping\",\"content\":\"Hello\"}",
        "{\"content\":\"Hello\"}",
        "{\"type\":\"message\"}",
        "{\"type\":\"message\",\"content\":\"\"}",
        "{\"type\":\"message\",\"content\":7}",
        "{\"type\":7,\"content\":\"Hello\"}",
        "[\"type\",\"message\"]",
        "null",
    ] {
        assert!(is_quiet(&chat.step(Event::Text(text.to_string()), &plain())));
        assert!(matches!(chat.phase, Phase::Listening));
    }
    assert!(is_quiet(&chat.step(Event::Other, &plain())));
}

#[test]
fn the_provider_may_be_unknown() {
    let mut chat = session();
    let settings = Settings { secret: None, provider: None };
    let step = chat.step(Event::Text(HELLO.to_string()), &settings);
    assert_eq!(step.notice.unwrap()["provider"].as_str(), Some("unknown"));
}

#[test]
fn failed_preparation_is_told_to_the_client_alone() {
    let mut chat = session();
    chat.step(Event::Text(HELLO.to_string()), &plain());
    let step = chat.step(Event::PreparationFailed("no image".to_string()), &plain());
    assert_eq!(
        step.frame,
        Some("{\"message\":\"Multimodal prep failed: no image\",\"type\":\"error\"}".to_string())
    );
    assert_eq!(step.notice, None);
    assert!(matches!(chat.phase, Phase::Listening));
}

#[test]
fn a_failed_provider_is_told_to_client_and_dashboard() {
    let mut chat = session();
    chat.step(Event::Text(HELLO.to_string()), &plain());
    chat.step(Event::Prepared, &plain());
    let step = chat.step(Event::ProviderFailed("rate limit".to_string()), &plain());
    assert_eq!(
        step.frame,
        Some("{\"message\":\"rate limit\",\"type\":\"error\"}".to_string())
    );
    assert_eq!(
        step.notice,
        Some(json(
            "{\"type\":\"error\",\"component\":\"ws_chat\",\"message\":\"rate limit\"}"
        ))
    );
    assert!(matches!(chat.phase, Phase::Listening));
}

#[test]
fn only_the_client_ends_a_session() {
    for event in [Event::Close, Event::Failure, Event::End] {
        let mut chat = session();
        let step = chat.step(event, &plain());
        assert!(step.frame.is_none() && step.notice.is_none());
        assert!(matches!(step.action, Action::Stop));
        assert!(matches!(chat.phase, Phase::Over));
    }
}

#[test]
fn frames_are_encrypted_under_the_secret() {
    let mut chat = session();
    let step = chat.step(Event::Text(HELLO_PAYLOAD.to_string()), &encrypted());
    assert!(matches!(step.action, Action::Prepare(ref content) if content == "Hello"));
    chat.step(Event::Prepared, &encrypted());
    let step = chat.step(Event::Answered("Hi".to_string()), &encrypted());
    let text = decrypt_payload(&step.frame.unwrap(), KEY).unwrap();
    assert_eq!(text, "{\"full_response\":\"Hi\",\"type\":\"done\"}");
    assert_eq!(json(&text)["full_response"].as_str(), Some("Hi"));
    // The dashboard's notice is left as it is: its stream encrypts it.
    assert_eq!(step.notice.unwrap()["type"].as_str(), Some("agent_end"));
}

#[test]
fn plain_text_is_accepted_under_a_secret() {
    let mut chat = session();
    let step = chat.step(Event::Text(HELLO.to_string()), &encrypted());
    assert!(matches!(step.action, Action::Prepare(ref content) if content == "Hello"));
}

#[test]
fn encrypted_text_is_no_json_without_the_secret() {
    let mut chat = session();
    let payload = encrypt_payload(HELLO, KEY).unwrap();
    let step = chat.step(Event::Text(payload), &plain());
    assert_eq!(
        step.frame,
        Some("{\"message\":\"Invalid JSON\",\"type\":\"error\"}".to_string())
    );
}

#[test]
fn errors_are_encrypted_under_the_secret() {
    let mut chat = session();
    let step = chat.step(Event::Text("Hello".to_string()), &encrypted());
    assert_eq!(
        decrypt_payload(&step.frame.unwrap(), KEY),
        Some("{\"message\":\"Invalid JSON\",\"type\":\"error\"}".to_string())
    );
}

#[test]
fn every_turn_is_answered_once() {
    let mut chat = session();
    let mut frames = 0;
    let mut starts = 0;
    for round in 0..3 {
        let mut steps = vec![chat.step(Event::Text(HELLO.to_string()), &plain())];
        if round == 0 {
            steps.push(chat.step(Event::PreparationFailed("x".to_string()), &plain()));
        } else {
            steps.push(chat.step(Event::Prepared, &plain()));
            steps.push(chat.step(Event::Answered("y".to_string()), &plain()));
        }
        for step in steps {
            frames += step.frame.is_some() as u32;
            starts += matches!(step.action, Action::Prepare(_)) as u32;
        }
    }
    assert_eq!((starts, frames), (3, 3));
}

#[test]
fn requests_are_read_out_of_values() {
    assert!(matches!(read_request(None), Request::Invalid));
    assert!(matches!(read_request(Some(Value::Null)), Request::Ignored));
    assert!(
        matches!(read_request(Some(json(HELLO))), Request::Message(ref c) if c == "Hello")
    );
    assert!(matches!(parse_request("{"), Request::Invalid));
    assert!(matches!(parse_request(HELLO), Request::Message(ref c) if c == "Hello"));
}

#[test]
fn a_request_can_be_taken_up_by_itself() {
    let mut chat = session();
    let step = chat.request(Request::Message("Hello".to_string()), &plain());
    assert!(matches!(step.action, Action::Prepare(ref content) if content == "Hello"));
    assert!(matches!(chat.phase, Phase::Preparing(_)));
}

#[test]
fn a_turn_knows_the_prompt_and_one_message() {
    let messages = turn_messages("Be brief.".to_string(), "Hello".to_string());
    let said: Vec<(&str, &str)> =
        messages.iter().map(|m| (m.role.as_str(), m.content.as_str())).collect();
    assert_eq!(said, vec![("system", "Be brief."), ("user", "Hello")]);
}

#[test]
fn replies_become_events() {
    let shown = |error: &str| error.replace("sk-123", "***");
    let event = provider_event(Ok("Hi".to_string()), shown);
    assert!(matches!(event, Event::Answered(ref r) if r == "Hi"));
    let event = provider_event(Err("bad key sk-123".to_string()), shown);
    assert!(matches!(event, Event::ProviderFailed(ref e) if e == "bad key ***"));
}

#[test]
fn errors_are_seen_sanitized_only() {
    let mut frames = Vec::new();
    for error in ["bad key sk-123", "bad key sk-456"] {
        let mut chat = session();
        chat.step(Event::Text(HELLO.to_string()), &plain());
        chat.step(Event::Prepared, &plain());
        let event = provider_event(Err(error.to_string()), |e: &str| e[..7].to_string());
        let step = chat.step(event, &plain());
        frames.push((step.frame, step.notice));
    }
    assert_eq!(frames[0], frames[1]);
    assert_eq!(
        frames[0].0,
        Some("{\"message\":\"bad key\",\"type\":\"error\"}".to_string())
    );
}

#[test]
fn frames_and_notices_are_accounted_for() {
    let turn = |end: Event| vec![Event::Text(HELLO.to_string()), Event::Prepared, end];
    let mut past = vec![Event::Text("no json".to_string())];
    past.extend(turn(Event::Answered("Hi".to_string())));
    past.push(Event::Text("{}".to_string()));
    past.extend(turn(Event::ProviderFailed("down".to_string())));
    past.push(Event::Text(HELLO.to_string()));
    past.push(Event::PreparationFailed("too big".to_string()));
    past.push(Event::Other);
    past.extend(turn(Event::Answered("Hi".to_string())));
    past.push(Event::Text("[".to_string()));

    let mut chat = session();
    let (mut texts, mut frames) = (0, 0);
    let mut kinds: Vec<String> = Vec::new();
    for event in past {
        if let Event::Text(text) = &event {
            if !matches!(parse_request(text), Request::Ignored) {
                texts += 1;
            }
        }
        if matches!(event, Event::PreparationFailed(_)) {
            kinds.push("unprepared".to_string());
        }
        let step = chat.step(event, &plain());
        frames += step.frame.is_some() as usize;
        if let Some(notice) = step.notice {
            kinds.push(notice["type"].as_str().unwrap().to_string());
        }
        let under_way = !matches!(chat.phase, Phase::Listening) as usize;
        assert_eq!(frames + under_way, texts);
    }
    assert_eq!(frames, 6);
    assert_eq!(
        kinds,
        vec![
            "agent_start", "agent_end", "agent_start", "error", "agent_start", "unprepared",
            "agent_start", "agent_end",
        ]
    );
}
