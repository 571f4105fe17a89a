//! The chat over a WebSocket.
//!
//! ```text
//! Client -> Server: {"type":"message","content":"Hello"}
//! Server -> Client: {"type":"done","full_response":"..."}
//! Server -> Client: {"type":"error","message":"..."}
//! ```
//!
//! A [`ChatSession`] decides; whoever runs it does the work. It is told what happened, and says
//! what to send to the client, what to announce to the dashboard and what to do next. Each message
//! of the client is a turn: the messages for the provider are prepared, then the provider is asked,
//! and the client is sent what came of it.
use crate::json::{
    is_ordinary_key, json_of, json_read, json_written, lemma_typed_is_flat, lemma_with_keeps_flat,
    member, parse, put_text, reads_back, to_text, typed_object, Json,
};
use crate::payload::{
    base64_bytes, base64_text, can_seal, carries, lemma_payload_has_a_nonce, protect, received,
    sealed, secret_shaped, secret_view, sendable, unprotect,
};
use serde_json::Value;
use vstd::prelude::*;
use vstd::string::*;
use vstd::utf8::encode_utf8;

verus! {

// ---------------------------------------------------------------------------------------------
// Requests
// ---------------------------------------------------------------------------------------------

/// What a client's text asks for.
#[derive(Debug)]
pub enum Request {
    /// It is not JSON.
    Invalid,
    /// It is JSON, but no message that has content.
    Ignored,
    /// It is a message with this content.
    Message(String),
}

/// What a client's text asks for, in characters.
pub enum RequestView {
    Invalid,
    Ignored,
    Message(Seq<char>),
}

impl View for Request {
    type V = RequestView;

    open spec fn view(&self) -> RequestView {
        match self {
            Request::Invalid => RequestView::Invalid,
            Request::Ignored => RequestView::Ignored,
            Request::Message(content) => RequestView::Message(content@),
        }
    }
}

/// What is asked for by what was read out of a client's text: a message is an object whose `type`
/// is `message` and whose `content` is a text that is not empty.
pub open spec fn request_in(json: Option<Json>) -> RequestView {
    match json {
        None => RequestView::Invalid,
        Some(json) => match (json.member("type"@).text(), json.member("content"@).text()) {
            (Some(kind), Some(content)) => if kind == "message"@ && content.len() > 0 {
                RequestView::Message(content)
            } else {
                RequestView::Ignored
            },
            _ => RequestView::Ignored,
        },
    }
}

/// What a value holds, if there is one.
pub open spec fn json_in(value: Option<Value>) -> Option<Json> {
    match value {
        Some(v) => Some(json_of(v)),
        None => None,
    }
}

/// What is asked for by the value that was read out of a client's text; `None` stands for a text
/// that is not JSON.
pub fn read_request(parsed: Option<Value>) -> (request: Request)
    ensures
        request@ == request_in(json_in(parsed)),
{
    let value = match parsed {
        Some(value) => value,
        None => return Request::Invalid,
    };
    let kind = match member(&value, "type").as_str() {
        Some(kind) => kind.to_owned(),
        None => return Request::Ignored,
    };
    if kind != "message".to_owned() {
        return Request::Ignored;
    }
    match member(&value, "content").as_str() {
        Some(content) => if content.is_empty() {
            Request::Ignored
        } else {
            Request::Message(content.to_owned())
        },
        None => Request::Ignored,
    }
}

/// What a client's text asks for.
pub fn parse_request(text: &str) -> (request: Request)
    ensures
        request@ == request_in(json_read(text@)),
{
    match parse(text) {
        Ok(value) => read_request(Some(value)),
        Err(_) => read_request(None),
    }
}

// ---------------------------------------------------------------------------------------------
// What is said
// ---------------------------------------------------------------------------------------------

/// The frame that gives the client the response to a message.
pub open spec fn done_json(response: Seq<char>) -> Json {
    Json::typed("done"@).with_text("full_response"@, response)
}

/// The frame that tells the client of an error.
pub open spec fn error_json(message: Seq<char>) -> Json {
    Json::typed("error"@).with_text("message"@, message)
}

/// The notice that a turn starts or ends.
pub open spec fn agent_json(kind: Seq<char>, provider: Seq<char>, model: Seq<char>) -> Json {
    Json::typed(kind).with_text("provider"@, provider).with_text("model"@, model)
}

/// The notice that a turn failed.
pub open spec fn failure_json(message: Seq<char>) -> Json {
    Json::typed("error"@).with_text("component"@, "ws_chat"@).with_text("message"@, message)
}

/// Whether a field can stand beside the `type` of a frame or a notice, under an ordinary key.
spec fn is_field(key: Seq<char>) -> bool {
    key != "type"@ && is_ordinary_key(key)
}

/// The fields of frames and notices are told apart from their `type`.
proof fn lemma_fields()
    ensures
        is_field("full_response"@),
        is_field("message"@),
        is_field("provider"@),
        is_field("model"@),
        is_field("component"@),
{
    reveal_strlit("type");
    reveal_strlit("full_response");
    reveal_strlit("message");
    reveal_strlit("provider");
    reveal_strlit("model");
    reveal_strlit("component");
    assert("type"@[0] == 't' && "full_response"@[0] == 'f' && "message"@[0] == 'm');
    assert("provider"@[0] == 'p' && "model"@[0] == 'm' && "component"@[0] == 'c');
}

/// The frames for the client are flat objects.
proof fn lemma_frames_are_flat(text: Seq<char>)
    ensures
        done_json(text).is_flat(),
        error_json(text).is_flat(),
{
    lemma_fields();
    lemma_typed_is_flat("done"@);
    lemma_with_keeps_flat(Json::typed("done"@), "full_response"@, Json::Text(text));
    lemma_typed_is_flat("error"@);
    lemma_with_keeps_flat(Json::typed("error"@), "message"@, Json::Text(text));
}

/// The frame that gives the client the response to a message.
pub fn done_value(response: &str) -> (object: Value)
    ensures
        json_of(object).is_flat(),
        json_of(object) == done_json(response@),
{
    let mut object = typed_object("done");
    put_text(&mut object, "full_response", response);
    proof {
        lemma_frames_are_flat(response@);
    }
    object
}

/// The frame that tells the client of an error.
pub fn error_value(message: &str) -> (object: Value)
    ensures
        json_of(object).is_flat(),
        json_of(object) == error_json(message@),
{
    let mut object = typed_object("error");
    put_text(&mut object, "message", message);
    proof {
        lemma_frames_are_flat(message@);
    }
    object
}

/// The notice that a turn starts or ends.
pub fn agent_value(kind: &str, provider: &str, model: &str) -> (object: Value)
    ensures
        json_of(object) == agent_json(kind@, provider@, model@),
{
    let mut object = typed_object(kind);
    put_text(&mut object, "provider", provider);
    put_text(&mut object, "model", model);
    object
}

/// The notice that a turn failed.
pub fn failure_value(message: &str) -> (object: Value)
    ensures
        json_of(object) == failure_json(message@),
{
    let mut object = typed_object("error");
    put_text(&mut object, "component", "ws_chat");
    put_text(&mut object, "message", message);
    object
}

// ---------------------------------------------------------------------------------------------
// What the provider is told, and says
// ---------------------------------------------------------------------------------------------

/// A message for the provider.
#[derive(Debug)]
pub struct ChatMessage {
    /// Who speaks.
    pub role: String,
    /// What is said.
    pub content: String,
}

/// The messages of a turn: the system's prompt, then what the client said. A turn knows nothing of
/// the turns before it.
pub fn turn_messages(system_prompt: String, content: String) -> (messages: Vec<ChatMessage>)
    ensures
        messages@.len() == 2,
        messages@[0].role@ == "system"@,
        messages@[0].content == system_prompt,
        messages@[1].role@ == "user"@,
        messages@[1].content == content,
{
    let mut messages: Vec<ChatMessage> = Vec::new();
    messages.push(ChatMessage { role: "system".to_owned(), content: system_prompt });
    messages.push(ChatMessage { role: "user".to_owned(), content });
    messages
}

/// Whether the sanitizer can make this text of an error.
pub open spec fn shown_for<F: Fn(&str) -> String>(
    sanitize: F,
    error: Seq<char>,
    shown: String,
) -> bool {
    exists|e: &str| e@ == error && #[trigger] sanitize.ensures((e,), shown)
}

/// What a provider's reply means for the session. The text of an error goes no further than to
/// `sanitize`, which makes a text of it that is fit to be shown.
pub fn provider_event<F: Fn(&str) -> String>(
    reply: Result<String, String>,
    sanitize: F,
) -> (event: Event)
    requires
        forall|error: &str| #[trigger] sanitize.requires((error,)),
    ensures
        reply matches Ok(response) ==> event == Event::Answered(response),
        reply matches Err(error) ==> event matches Event::ProviderFailed(shown) && shown_for(
            sanitize,
            error@,
            shown,
        ),
{
    match reply {
        Ok(response) => Event::Answered(response),
        Err(error) => {
            let e = error.as_str();
            let shown = sanitize(e);
            assert(shown_for(sanitize, error@, shown));
            Event::ProviderFailed(shown)
        },
    }
}

// ---------------------------------------------------------------------------------------------
// The session
// ---------------------------------------------------------------------------------------------

/// Where a session stands.
#[derive(Debug)]
pub enum Phase {
    /// It waits for the client.
    Listening,
    /// It waits for the messages of a turn to be prepared. The turn was announced for this provider.
    Preparing(String),
    /// It waits for the provider to respond. The turn was announced for this provider.
    Asking(String),
    /// It is over.
    Over,
}

/// Where a session stands, in characters.
pub enum PhaseView {
    Listening,
    Preparing(Seq<char>),
    Asking(Seq<char>),
    Over,
}

impl View for Phase {
    type V = PhaseView;

    open spec fn view(&self) -> PhaseView {
        match self {
            Phase::Listening => PhaseView::Listening,
            Phase::Preparing(provider) => PhaseView::Preparing(provider@),
            Phase::Asking(provider) => PhaseView::Asking(provider@),
            Phase::Over => PhaseView::Over,
        }
    }
}

/// What can happen in a session.
#[derive(Debug)]
pub enum Event {
    /// The client sent a text.
    Text(String),
    /// The client sent something other than a text, and did not close.
    Other,
    /// The client closed.
    Close,
    /// Receiving failed.
    Failure,
    /// There is nothing more to receive.
    End,
    /// The messages of the turn were prepared.
    Prepared,
    /// They could not be prepared, for this reason.
    PreparationFailed(String),
    /// The provider responded.
    Answered(String),
    /// The provider failed, with this error, fit to be shown.
    ProviderFailed(String),
}

/// What to do next.
#[derive(Debug)]
pub enum Action {
    /// Wait for the client.
    Listen,
    /// Prepare the messages for a turn with this content.
    Prepare(String),
    /// Ask the provider.
    Ask,
    /// Stop.
    Stop,
}

/// What to do next, in characters.
pub enum ActionView {
    Listen,
    Prepare(Seq<char>),
    Ask,
    Stop,
}

impl View for Action {
    type V = ActionView;

    open spec fn view(&self) -> ActionView {
        match self {
            Action::Listen => ActionView::Listen,
            Action::Prepare(content) => ActionView::Prepare(content@),
            Action::Ask => ActionView::Ask,
            Action::Stop => ActionView::Stop,
        }
    }
}

/// What a session wants done: first the frame is sent to the client, then the notice is announced
/// to the dashboard, then comes the action.
pub struct Step {
    pub frame: Option<String>,
    pub notice: Option<Value>,
    pub action: Action,
}

/// What comes of an event.
pub struct Outcome {
    /// Where the session stands then.
    pub phase: PhaseView,
    /// What the client is told.
    pub frame: Option<Json>,
    /// What the dashboard is told.
    pub notice: Option<Json>,
    /// What is done next.
    pub action: ActionView,
}

/// What a session is set up with at the time of an event.
pub struct Settings<'a> {
    /// The secret that is shared with the client, as base64 text.
    pub secret: Option<&'a str>,
    /// The provider that is asked, if one is configured.
    pub provider: Option<&'a str>,
}

impl<'a> Settings<'a> {
    /// The name under which a turn is announced.
    pub open spec fn label(self) -> Seq<char> {
        match self.provider {
            Some(provider) => provider@,
            None => "unknown"@,
        }
    }
}

impl PhaseView {
    /// Whether an event can happen in this phase.
    pub open spec fn expects(self, event: Event) -> bool {
        match self {
            PhaseView::Listening => event is Text || event is Other || event is Close
                || event is Failure || event is End,
            PhaseView::Preparing(_) => event is Prepared || event is PreparationFailed,
            PhaseView::Asking(_) => event is Answered || event is ProviderFailed,
            PhaseView::Over => false,
        }
    }

    /// The provider for which the turn under way was announced; the empty text between turns.
    pub open spec fn provider(self) -> Seq<char> {
        match self {
            PhaseView::Preparing(provider) => provider,
            PhaseView::Asking(provider) => provider,
            _ => Seq::empty(),
        }
    }
}

/// Nothing is said, and the session listens.
pub open spec fn keep_listening() -> Outcome {
    Outcome {
        phase: PhaseView::Listening,
        frame: None,
        notice: None,
        action: ActionView::Listen,
    }
}

/// What comes of a request: a text that is not JSON is answered with an error, one that is no
/// message is passed over, and a message starts a turn, which is announced.
pub open spec fn requested(request: RequestView, label: Seq<char>, model: Seq<char>) -> Outcome {
    match request {
        RequestView::Invalid => Outcome {
            frame: Some(error_json("Invalid JSON"@)),
            ..keep_listening()
        },
        RequestView::Ignored => keep_listening(),
        RequestView::Message(content) => Outcome {
            phase: PhaseView::Preparing(label),
            frame: None,
            notice: Some(agent_json("agent_start"@, label, model)),
            action: ActionView::Prepare(content),
        },
    }
}

/// What comes of an event that the phase expects.
pub open spec fn outcome(
    phase: PhaseView,
    event: Event,
    model: Seq<char>,
    secret: Option<Seq<char>>,
    label: Seq<char>,
) -> Outcome {
    match event {
        Event::Text(wire) => requested(
            request_in(json_read(received(wire@, secret))),
            label,
            model,
        ),
        Event::Other => keep_listening(),
        Event::Close | Event::Failure | Event::End => Outcome {
            phase: PhaseView::Over,
            frame: None,
            notice: None,
            action: ActionView::Stop,
        },
        Event::Prepared => Outcome {
            phase: PhaseView::Asking(phase.provider()),
            frame: None,
            notice: None,
            action: ActionView::Ask,
        },
        Event::PreparationFailed(reason) => Outcome {
            frame: Some(error_json("Multimodal prep failed: "@ + reason@)),
            ..keep_listening()
        },
        Event::Answered(response) => Outcome {
            frame: Some(done_json(response@)),
            notice: Some(agent_json("agent_end"@, phase.provider(), model)),
            ..keep_listening()
        },
        Event::ProviderFailed(error) => Outcome {
            frame: Some(error_json(error@)),
            notice: Some(failure_json(error@)),
            ..keep_listening()
        },
    }
}

/// Whether a step is what an outcome says, with the frame as it goes out under the secret. What the
/// client is told can be read out of the text of the frame.
pub open spec fn realizes(step: Step, outcome: Outcome, secret: Option<Seq<char>>) -> bool {
    &&& step.action@ == outcome.action
    &&& json_in(step.notice) == outcome.notice
    &&& match (step.frame, outcome.frame) {
        (Some(wire), Some(json)) => carries(wire@, json_written(json), secret) && reads_back(json),
        (None, None) => true,
        _ => false,
    }
}

/// A chat with one client.
pub struct ChatSession {
    /// The model that is asked.
    pub model: String,
    /// Where the session stands.
    pub phase: Phase,
}

/// The text of a frame as it goes out.
fn frame(value: &Value, secret: Option<&str>) -> (wire: String)
    requires
        json_of(*value).is_flat(),
    ensures
        carries(wire@, json_written(json_of(*value)), secret_view(secret)),
        reads_back(json_of(*value)),
        secret_shaped(secret_view(secret)),
{
    protect(to_text(value), secret)
}

impl ChatSession {
    /// A session that waits for the client.
    pub fn new(model: String) -> (session: Self)
        ensures
            session.model == model,
            session.phase@ == PhaseView::Listening,
    {
        ChatSession { model, phase: Phase::Listening }
    }

    /// Takes up what a client asks for.
    pub fn request(&mut self, request: Request, settings: &Settings) -> (step: Step)
        requires
            old(self).phase@ is Listening,
        ensures
            final(self).model == old(self).model,
            ({
                let due = requested(request@, settings.label(), old(self).model@);
                &&& final(self).phase@ == due.phase
                &&& realizes(step, due, secret_view(settings.secret))
            }),
            step.frame is Some ==> secret_shaped(secret_view(settings.secret)),
    {
        match request {
            Request::Invalid => Step {
                frame: Some(frame(&error_value("Invalid JSON"), settings.secret)),
                notice: None,
                action: Action::Listen,
            },
            Request::Ignored => Step { frame: None, notice: None, action: Action::Listen },
            Request::Message(content) => {
                let label = match settings.provider {
                    Some(provider) => provider.to_owned(),
                    None => "unknown".to_owned(),
                };
                let notice = agent_value("agent_start", label.as_str(), self.model.as_str());
                self.phase = Phase::Preparing(label);
                Step { frame: None, notice: Some(notice), action: Action::Prepare(content) }
            },
        }
    }

    /// Takes up what happened.
    pub fn step(&mut self, event: Event, settings: &Settings) -> (step: Step)
        requires
            old(self).phase@.expects(event),
        ensures
            final(self).model == old(self).model,
            ({
                let secret = secret_view(settings.secret);
                let due = outcome(
                    old(self).phase@,
                    event,
                    old(self).model@,
                    secret,
                    settings.label(),
                );
                &&& final(self).phase@ == due.phase
                &&& realizes(step, due, secret)
            }),
            step.frame is Some || event is Text ==> secret_shaped(secret_view(settings.secret)),
    {
        let provider = match &self.phase {
            Phase::Preparing(provider) => provider.clone(),
            Phase::Asking(provider) => provider.clone(),
            _ => String::new(),
        };
        match event {
            Event::Text(wire) => {
                let text = unprotect(wire, settings.secret);
                self.request(parse_request(text.as_str()), settings)
            },
            Event::Other => Step { frame: None, notice: None, action: Action::Listen },
            Event::Close | Event::Failure | Event::End => {
                self.phase = Phase::Over;
                Step { frame: None, notice: None, action: Action::Stop }
            },
            Event::Prepared => {
                self.phase = Phase::Asking(provider);
                Step { frame: None, notice: None, action: Action::Ask }
            },
            Event::PreparationFailed(reason) => {
                self.phase = Phase::Listening;
                let mut message = "Multimodal prep failed: ".to_owned();
                message.append(reason.as_str());
                Step {
                    frame: Some(frame(&error_value(message.as_str()), settings.secret)),
                    notice: None,
                    action: Action::Listen,
                }
            },
            Event::Answered(response) => {
                self.phase = Phase::Listening;
                Step {
                    frame: Some(frame(&done_value(response.as_str()), settings.secret)),
                    notice: Some(
                        agent_value("agent_end", provider.as_str(), self.model.as_str()),
                    ),
                    action: Action::Listen,
                }
            },
            Event::ProviderFailed(error) => {
                self.phase = Phase::Listening;
                Step {
                    frame: Some(frame(&error_value(error.as_str()), settings.secret)),
                    notice: Some(failure_value(error.as_str())),
                    action: Action::Listen,
                }
            },
        }
    }
}

// ---------------------------------------------------------------------------------------------
// Whole sessions
// ---------------------------------------------------------------------------------------------

/// An event, with what the session was set up with at the time.
pub struct Happening {
    pub event: Event,
    pub secret: Option<Seq<char>>,
    pub label: Seq<char>,
}

/// Where a session stands after all this has happened.
pub open spec fn phase_after(model: Seq<char>, past: Seq<Happening>) -> PhaseView
    decreases past.len(),
{
    if past.len() == 0 {
        PhaseView::Listening
    } else {
        let now = past.last();
        outcome(
            phase_after(model, past.drop_last()),
            now.event,
            model,
            now.secret,
            now.label,
        ).phase
    }
}

/// What came of the last thing that happened.
pub open spec fn last_outcome(model: Seq<char>, past: Seq<Happening>) -> Outcome
    recommends
        past.len() > 0,
{
    let now = past.last();
    outcome(phase_after(model, past.drop_last()), now.event, model, now.secret, now.label)
}

/// Whether all this can happen: each event is one that the session then expected.
pub open spec fn possible(model: Seq<char>, past: Seq<Happening>) -> bool
    decreases past.len(),
{
    past.len() == 0 || {
        &&& possible(model, past.drop_last())
        &&& phase_after(model, past.drop_last()).expects(past.last().event)
    }
}

/// Whether a turn is under way.
pub open spec fn in_turn(phase: PhaseView) -> bool {
    phase is Preparing || phase is Asking
}

/// How many turns have started.
pub open spec fn turns_started(model: Seq<char>, past: Seq<Happening>) -> nat
    decreases past.len(),
{
    if past.len() == 0 {
        0
    } else {
        turns_started(model, past.drop_last()) + if last_outcome(model, past).action is Prepare {
            1nat
        } else {
            0nat
        }
    }
}

/// How many frames were sent to the client while a turn was under way.
pub open spec fn turns_answered(model: Seq<char>, past: Seq<Happening>) -> nat
    decreases past.len(),
{
    if past.len() == 0 {
        0
    } else {
        turns_answered(model, past.drop_last()) + if in_turn(phase_after(model, past.drop_last()))
            && last_outcome(model, past).frame is Some {
            1nat
        } else {
            0nat
        }
    }
}

/// Every turn that starts is answered exactly once, and no turn starts before the one before it has
/// been answered: at any time, as many turns have been answered as have started, but for the one
/// that may be under way.
pub proof fn law_every_turn_is_answered_once(model: Seq<char>, past: Seq<Happening>)
    requires
        possible(model, past),
    ensures
        turns_started(model, past) == turns_answered(model, past) + if in_turn(
            phase_after(model, past),
        ) {
            1nat
        } else {
            0nat
        },
    decreases past.len(),
{
    if past.len() > 0 {
        law_every_turn_is_answered_once(model, past.drop_last());
    }
}

/// What the client asks for in an event, under the secret of its time. Only a text can ask for
/// anything.
pub open spec fn asked(now: Happening) -> RequestView {
    match now.event {
        Event::Text(wire) => request_in(json_read(received(wire@, now.secret))),
        _ => RequestView::Ignored,
    }
}

/// How many texts came in that are not JSON.
pub open spec fn texts_invalid(past: Seq<Happening>) -> nat
    decreases past.len(),
{
    if past.len() == 0 {
        0
    } else {
        texts_invalid(past.drop_last()) + if asked(past.last()) is Invalid {
            1nat
        } else {
            0nat
        }
    }
}

/// How many messages that have content came in.
pub open spec fn messages_accepted(past: Seq<Happening>) -> nat
    decreases past.len(),
{
    if past.len() == 0 {
        0
    } else {
        messages_accepted(past.drop_last()) + if asked(past.last()) is Message {
            1nat
        } else {
            0nat
        }
    }
}

/// How many frames were sent to the client.
pub open spec fn frames_sent(model: Seq<char>, past: Seq<Happening>) -> nat
    decreases past.len(),
{
    if past.len() == 0 {
        0
    } else {
        frames_sent(model, past.drop_last()) + if last_outcome(model, past).frame is Some {
            1nat
        } else {
            0nat
        }
    }
}

/// How many turns could not be prepared.
pub open spec fn preparations_failed(past: Seq<Happening>) -> nat
    decreases past.len(),
{
    if past.len() == 0 {
        0
    } else {
        preparations_failed(past.drop_last()) + if past.last().event is PreparationFailed {
            1nat
        } else {
            0nat
        }
    }
}

/// Whether something is announced, and under this type.
pub open spec fn is_notice(notice: Option<Json>, kind: Seq<char>) -> bool {
    notice matches Some(json) && json.member("type"@).text() == Some(kind)
}

/// How many notices of this type were announced.
pub open spec fn notices(model: Seq<char>, past: Seq<Happening>, kind: Seq<char>) -> nat
    decreases past.len(),
{
    if past.len() == 0 {
        0
    } else {
        notices(model, past.drop_last(), kind) + if is_notice(
            last_outcome(model, past).notice,
            kind,
        ) {
            1nat
        } else {
            0nat
        }
    }
}

/// How many turns have come to an end, by a notice of the end, by a notice of a failure, or without a
/// notice because they could not be prepared.
pub open spec fn turns_closed(model: Seq<char>, past: Seq<Happening>) -> nat {
    notices(model, past, "agent_end"@) + notices(model, past, "error"@) + preparations_failed(past)
}

/// Each event gives the notice that is its own, and no other.
proof fn lemma_notices_by_event(
    phase: PhaseView,
    event: Event,
    model: Seq<char>,
    secret: Option<Seq<char>>,
    label: Seq<char>,
)
    ensures
        ({
            let due = outcome(phase, event, model, secret, label);
            &&& is_notice(due.notice, "agent_start"@) <==> due.action is Prepare
            &&& is_notice(due.notice, "agent_end"@) <==> event is Answered
            &&& is_notice(due.notice, "error"@) <==> event is ProviderFailed
        }),
{
    lemma_fields();
    reveal_strlit("agent_start");
    reveal_strlit("agent_end");
    reveal_strlit("error");
    assert("error"@.len() < "agent_end"@.len() < "agent_start"@.len());
}

/// At any time the client has been sent one frame for each text that is not JSON and one for each
/// message, but for the message whose turn may be under way, and no other.
pub proof fn law_every_frame_answers_a_text(model: Seq<char>, past: Seq<Happening>)
    requires
        possible(model, past),
    ensures
        frames_sent(model, past) + (if in_turn(phase_after(model, past)) {
            1nat
        } else {
            0nat
        }) == texts_invalid(past) + messages_accepted(past),
    decreases past.len(),
{
    if past.len() > 0 {
        law_every_frame_answers_a_text(model, past.drop_last());
    }
}

/// At any time the start of a turn has been announced once for each message, and each of these turns
/// has come to one end, of one kind, but for the one that may be under way.
pub proof fn law_every_start_comes_to_one_end(model: Seq<char>, past: Seq<Happening>)
    requires
        possible(model, past),
    ensures
        notices(model, past, "agent_start"@) == messages_accepted(past),
        notices(model, past, "agent_start"@) == turns_closed(model, past) + if in_turn(
            phase_after(model, past),
        ) {
            1nat
        } else {
            0nat
        },
    decreases past.len(),
{
    if past.len() > 0 {
        let now = past.last();
        let before = past.drop_last();
        law_every_start_comes_to_one_end(model, before);
        lemma_notices_by_event(
            phase_after(model, before),
            now.event,
            model,
            now.secret,
            now.label,
        );
    }
}

/// What can happen could happen up to any time.
proof fn lemma_possible_before(model: Seq<char>, past: Seq<Happening>, n: int)
    requires
        possible(model, past),
        0 <= n <= past.len(),
    ensures
        possible(model, past.take(n)),
    decreases past.len(),
{
    if n == past.len() {
        assert(past.take(n) =~= past);
    } else {
        lemma_possible_before(model, past.drop_last(), n);
        assert(past.drop_last().take(n) =~= past.take(n));
    }
}

/// Whether the start of a turn was announced at this place of a session.
pub open spec fn starts_at_place(model: Seq<char>, past: Seq<Happening>, i: int) -> bool {
    is_notice(last_outcome(model, past.take(i + 1)).notice, "agent_start"@)
}

/// How many notices of this type were announced from one place of a session up to another.
pub open spec fn notices_between(
    model: Seq<char>,
    past: Seq<Happening>,
    from: int,
    to: int,
    kind: Seq<char>,
) -> int {
    notices(model, past.take(to), kind) - notices(model, past.take(from), kind)
}

/// As a session goes on, no count goes down.
proof fn lemma_counts_grow(model: Seq<char>, past: Seq<Happening>, from: int, to: int)
    requires
        0 <= from <= to <= past.len(),
    ensures
        notices_between(model, past, from, to, "agent_end"@) >= 0,
        notices_between(model, past, from, to, "error"@) >= 0,
        preparations_failed(past.take(from)) <= preparations_failed(past.take(to)),
    decreases to - from,
{
    if from < to {
        lemma_counts_grow(model, past, from, to - 1);
        assert(past.take(to).drop_last() =~= past.take(to - 1));
    }
}

/// Between the announcement of a start and the next one, the turn comes to exactly one end: either
/// one notice of the end is announced, or one of a failure, or preparation fails once and nothing is
/// announced.
pub proof fn law_one_end_before_the_next_start(
    model: Seq<char>,
    past: Seq<Happening>,
    i: int,
    j: int,
)
    requires
        possible(model, past),
        0 <= i < j < past.len(),
        starts_at_place(model, past, i),
        starts_at_place(model, past, j),
        notices_between(model, past, i + 1, j, "agent_start"@) == 0,
    ensures
        ({
            let ends = notices_between(model, past, i + 1, j, "agent_end"@);
            let failures = notices_between(model, past, i + 1, j, "error"@);
            let unprepared = preparations_failed(past.take(j)) - preparations_failed(
                past.take(i + 1),
            );
            ||| ends == 1 && failures == 0 && unprepared == 0
            ||| ends == 0 && failures == 1 && unprepared == 0
            ||| ends == 0 && failures == 0 && unprepared == 1
        }),
{
    lemma_counts_grow(model, past, i + 1, j);
    lemma_possible_before(model, past, i + 1);
    lemma_possible_before(model, past, j + 1);
    lemma_possible_before(model, past, j);
    law_every_start_comes_to_one_end(model, past.take(i + 1));
    law_every_start_comes_to_one_end(model, past.take(j));
    let first = past.take(i + 1);
    let next = past.take(j + 1);
    assert(next.drop_last() =~= past.take(j));
    lemma_notices_by_event(
        phase_after(model, first.drop_last()),
        first.last().event,
        model,
        first.last().secret,
        first.last().label,
    );
    lemma_notices_by_event(
        phase_after(model, next.drop_last()),
        next.last().event,
        model,
        next.last().secret,
        next.last().label,
    );
}

/// What was said in a session: for each thing that happened, what the client and what the dashboard
/// was told.
pub open spec fn said(model: Seq<char>, past: Seq<Happening>) -> Seq<(Option<Json>, Option<Json>)>
    decreases past.len(),
{
    if past.len() == 0 {
        Seq::empty()
    } else {
        let last = last_outcome(model, past);
        said(model, past.drop_last()).push((last.frame, last.notice))
    }
}

/// Whether two events are of one kind and hold the same text.
pub open spec fn alike(a: Event, b: Event) -> bool {
    match (a, b) {
        (Event::Text(s), Event::Text(t)) => s@ == t@,
        (Event::PreparationFailed(s), Event::PreparationFailed(t)) => s@ == t@,
        (Event::Answered(s), Event::Answered(t)) => s@ == t@,
        (Event::ProviderFailed(s), Event::ProviderFailed(t)) => s@ == t@,
        _ => a == b,
    }
}

/// A session depends on nothing but what it is told: where alike events happen under the same
/// settings, the same is said, and the sessions stand alike.
pub proof fn law_sessions_depend_on_what_they_are_told(
    model: Seq<char>,
    one: Seq<Happening>,
    other: Seq<Happening>,
)
    requires
        one.len() == other.len(),
        forall|i: int|
            #![trigger one[i]]
            #![trigger other[i]]
            0 <= i < one.len() ==> alike(one[i].event, other[i].event) && one[i].secret
                == other[i].secret && one[i].label == other[i].label,
    ensures
        said(model, one) == said(model, other),
        phase_after(model, one) == phase_after(model, other),
    decreases one.len(),
{
    if one.len() > 0 {
        let n = one.len() - 1;
        assert(one[n] == one.last() && other[n] == other.last());
        assert forall|i: int|
            #![trigger one.drop_last()[i]]
            #![trigger other.drop_last()[i]]
            0 <= i < one.drop_last().len() implies alike(
            one.drop_last()[i].event,
            other.drop_last()[i].event,
        ) && one.drop_last()[i].secret == other.drop_last()[i].secret && one.drop_last()[i].label
            == other.drop_last()[i].label by {
            assert(one[i] == one.drop_last()[i]);
        }
        law_sessions_depend_on_what_they_are_told(model, one.drop_last(), other.drop_last());
    }
}

/// The text of a provider's error reaches nobody but through the sanitizer: two sessions that differ
/// only in an error of the provider say the same to the client and to the dashboard if the
/// sanitizer makes the same text of both errors.
pub proof fn law_errors_are_seen_sanitized_only(
    model: Seq<char>,
    one: Seq<Happening>,
    other: Seq<Happening>,
    at: int,
    sanitize: spec_fn(Seq<char>) -> Seq<char>,
    error: Seq<char>,
    other_error: Seq<char>,
)
    requires
        one.len() == other.len(),
        0 <= at < one.len(),
        forall|i: int|
            #![trigger one[i]]
            #![trigger other[i]]
            0 <= i < one.len() && i != at ==> one[i] == other[i],
        one[at].event matches Event::ProviderFailed(shown) && shown@ == sanitize(error),
        other[at].event matches Event::ProviderFailed(shown) && shown@ == sanitize(other_error),
        one[at].secret == other[at].secret,
        one[at].label == other[at].label,
        sanitize(error) == sanitize(other_error),
    ensures
        said(model, one) == said(model, other),
        phase_after(model, one) == phase_after(model, other),
{
    law_sessions_depend_on_what_they_are_told(model, one, other);
}

/// A text that is not JSON is answered with one error frame and nothing else: no turn starts, and
/// the session goes on.
pub proof fn law_invalid_json_is_answered(
    wire: String,
    model: Seq<char>,
    secret: Option<Seq<char>>,
    label: Seq<char>,
)
    requires
        json_read(received(wire@, secret)) is None,
    ensures
        outcome(PhaseView::Listening, Event::Text(wire), model, secret, label) == (Outcome {
            phase: PhaseView::Listening,
            frame: Some(error_json("Invalid JSON"@)),
            notice: None,
            action: ActionView::Listen,
        }),
{
}

/// A session is over exactly once the client has closed, receiving has failed or nothing more can
/// be received, and nothing happens in it after that. Whatever the client sends, and however a turn
/// fails, it goes on.
pub proof fn law_only_the_client_ends_a_session(model: Seq<char>, past: Seq<Happening>)
    requires
        possible(model, past),
    ensures
        phase_after(model, past) is Over <==> past.len() > 0 && (past.last().event is Close
            || past.last().event is Failure || past.last().event is End),
        past.len() > 0 ==> !(phase_after(model, past.drop_last()) is Over),
        past.len() > 0 ==> (last_outcome(model, past).action is Stop <==> phase_after(
            model,
            past,
        ) is Over),
{
}

/// The end of a turn is announced for the provider and the model for which its start was announced,
/// even if another provider is configured in between.
pub proof fn law_end_is_announced_as_the_start(
    label: Seq<char>,
    model: Seq<char>,
    content: Seq<char>,
    response: String,
    later: (Option<Seq<char>>, Seq<char>),
    last: (Option<Seq<char>>, Seq<char>),
)
    ensures
        ({
            let start = requested(RequestView::Message(content), label, model);
            let asked = outcome(start.phase, Event::Prepared, model, later.0, later.1);
            let end = outcome(asked.phase, Event::Answered(response), model, last.0, last.1);
            &&& start.notice == Some(agent_json("agent_start"@, label, model))
            &&& end.notice == Some(agent_json("agent_end"@, label, model))
        }),
{
}

/// The client receives what it is told: with the secret that the session has, it decrypts the frame
/// to the text of what was to be said, and reads that out of it.
pub proof fn law_client_receives_the_frame(
    step: Step,
    due: Outcome,
    json: Json,
    secret: Option<Seq<char>>,
)
    requires
        realizes(step, due, secret),
        due.frame == Some(json),
        sendable(json_written(json), secret),
    ensures
        step.frame is Some,
        received(step.frame->0@, secret) == json_written(json),
        json_read(received(step.frame->0@, secret)) == Some(json),
{
}

/// The frames for the client are of the documented form: a response comes under `full_response` of
/// an object of type `done`, an error under `message` of one of type `error`.
pub proof fn law_frames_are_as_documented(text: Seq<char>)
    ensures
        done_json(text).member("type"@).text() == Some("done"@),
        done_json(text).member("full_response"@).text() == Some(text),
        error_json(text).member("type"@).text() == Some("error"@),
        error_json(text).member("message"@).text() == Some(text),
{
    lemma_fields();
}

/// The notices for the dashboard are flat objects, of which a client reads back what was written.
pub proof fn law_notices_are_flat(
    phase: PhaseView,
    event: Event,
    model: Seq<char>,
    secret: Option<Seq<char>>,
    label: Seq<char>,
)
    ensures
        outcome(phase, event, model, secret, label).notice matches Some(json) ==> json.is_flat(),
{
    lemma_fields();
    if outcome(phase, event, model, secret, label).notice is Some {
        match event {
            Event::ProviderFailed(error) => {
                let object = Json::typed("error"@);
                lemma_typed_is_flat("error"@);
                lemma_with_keeps_flat(object, "component"@, Json::Text("ws_chat"@));
                lemma_with_keeps_flat(
                    object.with_text("component"@, "ws_chat"@),
                    "message"@,
                    Json::Text(error@),
                );
            },
            _ => {
                let provider = if event is Answered {
                    phase.provider()
                } else {
                    label
                };
                let kind = if event is Answered {
                    "agent_end"@
                } else {
                    "agent_start"@
                };
                let object = Json::typed(kind);
                lemma_typed_is_flat(kind);
                lemma_with_keeps_flat(object, "provider"@, Json::Text(provider));
                lemma_with_keeps_flat(
                    object.with_text("provider"@, provider),
                    "model"@,
                    Json::Text(model),
                );
            },
        }
    }
}

/// A message of the documented form starts a turn with its content, whatever else the object holds:
/// the turn is announced and its messages are prepared.
pub proof fn law_messages_start_turns(
    json: Json,
    content: Seq<char>,
    label: Seq<char>,
    model: Seq<char>,
)
    requires
        json.member("type"@) == Json::Text("message"@),
        json.member("content"@) == Json::Text(content),
        content.len() > 0,
    ensures
        requested(request_in(Some(json)), label, model) == (Outcome {
            phase: PhaseView::Preparing(label),
            frame: None,
            notice: Some(agent_json("agent_start"@, label, model)),
            action: ActionView::Prepare(content),
        }),
{
}

// ---------------------------------------------------------------------------------------------
// What calls give
// ---------------------------------------------------------------------------------------------

/// Under a usable key, what goes out is the base64 text of a nonce and of what the cipher makes of the
/// text with it.
proof fn lemma_frame_is_encrypted(wire: Seq<char>, text: Seq<char>, secret: Option<Seq<char>>)
    requires
        carries(wire, text, secret),
    ensures
        secret matches Some(key) ==> (base64_bytes(key) is Some && base64_bytes(key)->0.len() == 32
            && encode_utf8(text).len() <= 274_877_906_816 ==> exists|nonce: Seq<u8>|
            {
                &&& nonce.len() == 12
                &&& wire == base64_text(
                    nonce + #[trigger] sealed(base64_bytes(key)->0, nonce, encode_utf8(text)),
                )
            }),
{
    if let Some(key) = secret {
        if can_seal(text, key) {
            lemma_payload_has_a_nonce(wire, text, key);
        }
    }
}

/// Only messages are taken up: what is read out of a client's text is a message exactly if it is an
/// object whose `type` is the text `message` and whose `content` is a text that has characters, and
/// that text, whole and unchanged, is then its content. Any other value is passed over.
pub proof fn law_only_messages_are_taken_up(value: Value, request: Request)
    requires
        call_ensures(read_request, (Some(value),), request),
    ensures
        request is Message || request is Ignored,
        request matches Request::Message(content) ==> {
            &&& json_of(value) matches Json::Object(members)
            &&& members.contains_key("type"@)
            &&& members["type"@] == Json::Text("message"@)
            &&& members.contains_key("content"@)
            &&& members["content"@] == Json::Text(content@)
            &&& content@.len() > 0
        },
        request is Ignored ==> !(json_of(value) matches Json::Object(members)
            && members.contains_key("type"@) && members["type"@] == Json::Text("message"@)
            && members.contains_key("content"@) && members["content"@] is Text
            && members["content"@]->Text_0.len() > 0),
{
}

/// A text that is not JSON is invalid, and one that is JSON asks for what is read out of it.
pub proof fn law_texts_ask_for_what_is_read(text: &str, request: Request)
    requires
        call_ensures(parse_request, (text,), request),
    ensures
        request is Invalid <==> json_read(text@) is None,
        request matches Request::Message(content) ==> {
            &&& json_read(text@) matches Some(Json::Object(members))
            &&& members.contains_key("type"@)
            &&& members["type"@] == Json::Text("message"@)
            &&& members.contains_key("content"@)
            &&& members["content"@] == Json::Text(content@)
            &&& content@.len() > 0
        },
        request is Ignored ==> !(json_read(text@) matches Some(Json::Object(members))
            && members.contains_key("type"@) && members["type"@] == Json::Text("message"@)
            && members.contains_key("content"@) && members["content"@] is Text
            && members["content"@]->Text_0.len() > 0),
{
}

/// What is not a message starts no turn: for a text whose value is not an object with the type
/// `message` and a content that has characters, nothing is sent and nothing announced, and the session
/// goes on listening.
pub proof fn law_only_messages_start_turns(
    session: &mut ChatSession,
    wire: String,
    settings: &Settings,
    step: Step,
    arrived: String,
    text: String,
    json: Json,
)
    requires
        call_ensures(ChatSession::step, (session, Event::Text(wire), settings), step),
        arrived@ == wire@,
        call_ensures(unprotect, (arrived, settings.secret), text),
        json_read(text@) == Some(json),
        !(json matches Json::Object(members) && members.contains_key("type"@) && members["type"@]
            == Json::Text("message"@) && members.contains_key("content"@) && members["content"@]
            is Text && members["content"@]->Text_0.len() > 0),
    ensures
        step.frame is None,
        step.notice is None,
        step.action is Listen,
        final(session).phase is Listening,
        final(session).model == old(session).model,
{
}

/// Every message starts a turn with its whole content, whatever it is: the start is announced for the
/// configured provider, or for `unknown` where none is configured, and for the session's model.
pub proof fn law_every_message_starts_a_turn(
    session: &mut ChatSession,
    wire: String,
    settings: &Settings,
    step: Step,
    arrived: String,
    text: String,
    members: Map<Seq<char>, Json>,
    content: Seq<char>,
    label: Seq<char>,
)
    requires
        call_ensures(ChatSession::step, (session, Event::Text(wire), settings), step),
        arrived@ == wire@,
        call_ensures(unprotect, (arrived, settings.secret), text),
        json_read(text@) == Some(Json::Object(members)),
        members.contains_key("type"@),
        members["type"@] == Json::Text("message"@),
        members.contains_key("content"@),
        members["content"@] == Json::Text(content),
        content.len() > 0,
        settings.provider matches Some(provider) ==> label == provider@,
        settings.provider is None ==> label == "unknown"@,
    ensures
        step.frame is None,
        step.notice matches Some(notice) && json_of(notice) == Json::Object(
            map![
                "type"@ => Json::Text("agent_start"@),
                "provider"@ => Json::Text(label),
                "model"@ => Json::Text(old(session).model@),
            ],
        ),
        step.action matches Action::Prepare(asked) && asked@ == content,
        final(session).phase matches Phase::Preparing(provider) && provider@ == label,
        final(session).model == old(session).model,
{
}

/// A text that is not JSON is answered with the error `Invalid JSON`, which the client reads out of the
/// frame; nothing is announced, and the session goes on listening.
pub proof fn law_invalid_json_reaches_the_client(
    session: &mut ChatSession,
    wire: String,
    sent: String,
    read: String,
    settings: &Settings,
    step: Step,
    json: Json,
    arrived: String,
    text: String,
)
    requires
        call_ensures(ChatSession::step, (session, Event::Text(wire), settings), step),
        sent@ == wire@,
        call_ensures(unprotect, (sent, settings.secret), read),
        json_read(read@) is None,
        json == Json::Object(map![
            "type"@ => Json::Text("error"@),
            "message"@ => Json::Text("Invalid JSON"@),
        ]),
        step.frame matches Some(wire) ==> arrived@ == wire@,
        call_ensures(unprotect, (arrived, settings.secret), text),
        settings.secret matches Some(key) ==> base64_bytes(key@) is None || base64_bytes(
            key@,
        )->0.len() != 32 || encode_utf8(json_written(json)).len() <= 274_877_906_816,
    ensures
        step.frame is Some,
        text@ == json_written(json),
        json_read(text@) == Some(json),
        settings.secret is None ==> step.frame->0@ == json_written(json),
        settings.secret matches Some(key) ==> (base64_bytes(key@) is Some && base64_bytes(
            key@,
        )->0.len() == 32 ==> exists|nonce: Seq<u8>|
            {
                &&& nonce.len() == 12
                &&& step.frame->0@ == base64_text(
                    nonce + #[trigger] sealed(
                        base64_bytes(key@)->0,
                        nonce,
                        encode_utf8(json_written(json)),
                    ),
                )
            }),
        step.notice is None,
        step.action is Listen,
        final(session).phase is Listening,
        final(session).model == old(session).model,
{
    lemma_frame_is_encrypted(step.frame->0@, json_written(json), secret_view(settings.secret));
}

/// The response of the provider reaches the client whole, character for character, whatever it is: the
/// client reads it out of the frame under `full_response`, beside the type `done` and nothing else. The
/// end of the turn is announced for the provider for which it started, and the session listens.
pub proof fn law_the_whole_response_reaches_the_client(
    session: &mut ChatSession,
    response: String,
    settings: &Settings,
    step: Step,
    json: Json,
    arrived: String,
    text: String,
)
    requires
        call_ensures(ChatSession::step, (session, Event::Answered(response), settings), step),
        old(session).phase is Asking,
        json == Json::Object(map![
            "type"@ => Json::Text("done"@),
            "full_response"@ => Json::Text(response@),
        ]),
        step.frame matches Some(wire) ==> arrived@ == wire@,
        call_ensures(unprotect, (arrived, settings.secret), text),
        settings.secret matches Some(key) ==> base64_bytes(key@) is None || base64_bytes(
            key@,
        )->0.len() != 32 || encode_utf8(json_written(json)).len() <= 274_877_906_816,
    ensures
        step.frame is Some,
        text@ == json_written(json),
        json_read(text@) == Some(json),
        settings.secret is None ==> step.frame->0@ == json_written(json),
        settings.secret matches Some(key) ==> (base64_bytes(key@) is Some && base64_bytes(
            key@,
        )->0.len() == 32 ==> exists|nonce: Seq<u8>|
            {
                &&& nonce.len() == 12
                &&& step.frame->0@ == base64_text(
                    nonce + #[trigger] sealed(
                        base64_bytes(key@)->0,
                        nonce,
                        encode_utf8(json_written(json)),
                    ),
                )
            }),
        step.notice matches Some(notice) && json_of(notice) == Json::Object(
            map![
                "type"@ => Json::Text("agent_end"@),
                "provider"@ => Json::Text(old(session).phase->Asking_0@),
                "model"@ => Json::Text(old(session).model@),
            ],
        ),
        step.action is Listen,
        final(session).phase is Listening,
        final(session).model == old(session).model,
{
    lemma_frame_is_encrypted(step.frame->0@, json_written(json), secret_view(settings.secret));
}

/// The error of the provider, as it is fit to be shown, reaches the client and the dashboard whole,
/// character for character, and the session listens.
pub proof fn law_the_provider_error_reaches_client_and_dashboard(
    session: &mut ChatSession,
    error: String,
    settings: &Settings,
    step: Step,
    json: Json,
    arrived: String,
    text: String,
)
    requires
        call_ensures(ChatSession::step, (session, Event::ProviderFailed(error), settings), step),
        old(session).phase is Asking,
        json == Json::Object(map![
            "type"@ => Json::Text("error"@),
            "message"@ => Json::Text(error@),
        ]),
        step.frame matches Some(wire) ==> arrived@ == wire@,
        call_ensures(unprotect, (arrived, settings.secret), text),
        settings.secret matches Some(key) ==> base64_bytes(key@) is None || base64_bytes(
            key@,
        )->0.len() != 32 || encode_utf8(json_written(json)).len() <= 274_877_906_816,
    ensures
        step.frame is Some,
        text@ == json_written(json),
        json_read(text@) == Some(json),
        settings.secret is None ==> step.frame->0@ == json_written(json),
        settings.secret matches Some(key) ==> (base64_bytes(key@) is Some && base64_bytes(
            key@,
        )->0.len() == 32 ==> exists|nonce: Seq<u8>|
            {
                &&& nonce.len() == 12
                &&& step.frame->0@ == base64_text(
                    nonce + #[trigger] sealed(
                        base64_bytes(key@)->0,
                        nonce,
                        encode_utf8(json_written(json)),
                    ),
                )
            }),
        step.notice matches Some(notice) && json_of(notice) == Json::Object(
            map![
                "type"@ => Json::Text("error"@),
                "component"@ => Json::Text("ws_chat"@),
                "message"@ => Json::Text(error@),
            ],
        ),
        step.action is Listen,
        final(session).phase is Listening,
        final(session).model == old(session).model,
{
    lemma_frame_is_encrypted(step.frame->0@, json_written(json), secret_view(settings.secret));
}

/// The reason for which a turn could not be prepared reaches the client whole, character for character,
/// and nobody else; the session listens.
pub proof fn law_the_preparation_error_reaches_the_client(
    session: &mut ChatSession,
    reason: String,
    settings: &Settings,
    step: Step,
    json: Json,
    arrived: String,
    text: String,
)
    requires
        call_ensures(ChatSession::step, (session, Event::PreparationFailed(reason), settings), step),
        old(session).phase is Preparing,
        json == Json::Object(map![
            "type"@ => Json::Text("error"@),
            "message"@ => Json::Text("Multimodal prep failed: "@ + reason@),
        ]),
        step.frame matches Some(wire) ==> arrived@ == wire@,
        call_ensures(unprotect, (arrived, settings.secret), text),
        settings.secret matches Some(key) ==> base64_bytes(key@) is None || base64_bytes(
            key@,
        )->0.len() != 32 || encode_utf8(json_written(json)).len() <= 274_877_906_816,
    ensures
        step.frame is Some,
        text@ == json_written(json),
        json_read(text@) == Some(json),
        settings.secret is None ==> step.frame->0@ == json_written(json),
        settings.secret matches Some(key) ==> (base64_bytes(key@) is Some && base64_bytes(
            key@,
        )->0.len() == 32 ==> exists|nonce: Seq<u8>|
            {
                &&& nonce.len() == 12
                &&& step.frame->0@ == base64_text(
                    nonce + #[trigger] sealed(
                        base64_bytes(key@)->0,
                        nonce,
                        encode_utf8(json_written(json)),
                    ),
                )
            }),
        step.notice is None,
        step.action is Listen,
        final(session).phase is Listening,
        final(session).model == old(session).model,
{
    lemma_frame_is_encrypted(step.frame->0@, json_written(json), secret_view(settings.secret));
}

/// Once a turn is prepared the provider is asked, and nothing is said; the turn is still that of the
/// provider for which it was announced.
pub proof fn law_prepared_turns_are_asked(
    session: &mut ChatSession,
    settings: &Settings,
    step: Step,
)
    requires
        call_ensures(ChatSession::step, (session, Event::Prepared, settings), step),
        old(session).phase is Preparing,
    ensures
        step.frame is None,
        step.notice is None,
        step.action is Ask,
        final(session).phase is Asking,
        final(session).phase->Asking_0@ == old(session).phase->Preparing_0@,
        final(session).model == old(session).model,
{
}

/// Where the client closes, receiving fails or nothing more comes, the session stops; where the client
/// sends something other than a text, it goes on listening. Nothing is said in either case.
pub proof fn law_closing_stops_and_the_rest_is_passed_over(
    session: &mut ChatSession,
    event: Event,
    settings: &Settings,
    step: Step,
)
    requires
        call_ensures(ChatSession::step, (session, event, settings), step),
        event is Close || event is Failure || event is End || event is Other,
    ensures
        step.frame is None,
        step.notice is None,
        event is Other ==> step.action is Listen && final(session).phase is Listening,
        !(event is Other) ==> step.action is Stop && final(session).phase is Over,
        final(session).model == old(session).model,
{
}

/// A session takes up whatever its last action can lead to: what the client sends or does while it
/// listens, how preparation ends while it prepares, and how the provider replies while it asks.
pub proof fn law_sessions_take_up_what_can_happen(phase: Phase, event: Event)
    ensures
        phase is Listening ==> (phase@.expects(event) <==> event is Text || event is Other
            || event is Close || event is Failure || event is End),
        phase is Preparing ==> (phase@.expects(event) <==> event is Prepared
            || event is PreparationFailed),
        phase is Asking ==> (phase@.expects(event) <==> event is Answered
            || event is ProviderFailed),
        phase is Over ==> !phase@.expects(event),
{
}

/// A new session has the given model and listens.
pub proof fn law_new_sessions_listen(model: String, session: ChatSession)
    requires
        call_ensures(ChatSession::new, (model,), session),
    ensures
        session.model == model,
        session.phase is Listening,
{
}

/// To take up what a client asks for is to answer a text that is not JSON, to pass over what is no
/// message, and to start a turn with the whole content of a message.
pub proof fn law_requests_are_taken_up(
    session: &mut ChatSession,
    request: Request,
    settings: &Settings,
    step: Step,
    label: Seq<char>,
    json: Json,
)
    requires
        call_ensures(ChatSession::request, (session, request, settings), step),
        json == Json::Object(
            map!["type"@ => Json::Text("error"@), "message"@ => Json::Text("Invalid JSON"@)],
        ),
        settings.provider matches Some(provider) ==> label == provider@,
        settings.provider is None ==> label == "unknown"@,
    ensures
        request is Invalid ==> step.frame is Some,
        request is Ignored ==> step.frame is None,
        request is Invalid || request is Ignored ==> {
            &&& step.notice is None
            &&& step.action is Listen
            &&& final(session).phase is Listening
        },
        request is Invalid ==> json_read(json_written(json)) == Some(json),
        request is Invalid && settings.secret is None ==> step.frame->0@ == json_written(json),
        request is Invalid ==> (settings.secret matches Some(key) ==> (base64_bytes(key@) is Some
            && base64_bytes(key@)->0.len() == 32 && encode_utf8(json_written(json)).len()
            <= 274_877_906_816 ==> exists|nonce: Seq<u8>|
            {
                &&& nonce.len() == 12
                &&& step.frame->0@ == base64_text(
                    nonce + #[trigger] sealed(
                        base64_bytes(key@)->0,
                        nonce,
                        encode_utf8(json_written(json)),
                    ),
                )
            })),
        request matches Request::Message(content) ==> {
            &&& step.frame is None
            &&& step.notice matches Some(notice) && json_of(notice) == Json::Object(
                map![
                    "type"@ => Json::Text("agent_start"@),
                    "provider"@ => Json::Text(label),
                    "model"@ => Json::Text(old(session).model@),
                ],
            )
            &&& step.action matches Action::Prepare(asked) && asked@ == content@
            &&& final(session).phase matches Phase::Preparing(provider) && provider@ == label
        },
        final(session).model == old(session).model,
{
    if request is Invalid {
        lemma_frame_is_encrypted(step.frame->0@, json_written(json), secret_view(settings.secret));
    }
}

/// A response becomes the event that the provider answered with exactly that response; an error becomes
/// the event that it failed with what the sanitizer makes of exactly that error.
pub proof fn law_replies_become_events<F: Fn(&str) -> String>(
    reply: Result<String, String>,
    sanitize: F,
    shown: Seq<char>,
    event: Event,
)
    requires
        call_ensures(provider_event::<F>, (reply, sanitize), event),
    ensures
        reply matches Ok(response) ==> event == Event::Answered(response),
        reply matches Err(error) ==> ((forall|e: &str, s: String|
            e@ == error@ && #[trigger] sanitize.ensures((e,), s) ==> s@ == shown) ==> (
        event matches Event::ProviderFailed(told) && told@ == shown)),
{
}

/// A turn's messages are the system's prompt and then what the client said, whole and unchanged.
pub proof fn law_turns_tell_prompt_and_content(
    system_prompt: String,
    content: String,
    messages: Vec<ChatMessage>,
)
    requires
        call_ensures(turn_messages, (system_prompt, content), messages),
    ensures
        messages@.len() == 2,
        messages@[0].role@ == "system"@ && messages@[0].content@ == system_prompt@,
        messages@[1].role@ == "user"@ && messages@[1].content@ == content@,
{
}

/// Frames and notices hold exactly what they are made for, whole and unchanged.
pub proof fn law_frames_and_notices_are_exact(
    one: &str,
    two: &str,
    three: &str,
    done: Value,
    error: Value,
    agent: Value,
    failure: Value,
)
    requires
        call_ensures(done_value, (one,), done),
        call_ensures(error_value, (one,), error),
        call_ensures(agent_value, (one, two, three), agent),
        call_ensures(failure_value, (one,), failure),
    ensures
        json_of(done) == Json::Object(
            map!["type"@ => Json::Text("done"@), "full_response"@ => Json::Text(one@)],
        ),
        json_of(error) == Json::Object(
            map!["type"@ => Json::Text("error"@), "message"@ => Json::Text(one@)],
        ),
        json_of(agent) == Json::Object(
            map![
                "type"@ => Json::Text(one@),
                "provider"@ => Json::Text(two@),
                "model"@ => Json::Text(three@),
            ],
        ),
        json_of(failure) == Json::Object(
            map![
                "type"@ => Json::Text("error"@),
                "component"@ => Json::Text("ws_chat"@),
                "message"@ => Json::Text(one@),
            ],
        ),
{
}

} // verus!
