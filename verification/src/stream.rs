//! Server-sent event streams: who gets one, and what is sent on it.
use crate::access::{
    answer_of, authorize_stream, gate, header_token, let_in, stream_refusal, Answer, Refusal,
    SERVICE_UNAVAILABLE,
};
use crate::channel::{
    due, feeds, handed, hears, law_receivers_are_due_what_is_sent, new_receiver, offered, starts_at,
};
use crate::json::{json_of, json_read, json_written, reads_back, to_text, Json};
use crate::payload::{
    base64_bytes, base64_text, carries, cipher_key, lemma_payload_has_a_nonce, opened_payload,
    protect, received, sealed, secret_shaped, secret_view, sendable, unprotect,
};
use crate::telemetry::{
    after_subscribe, broadcasts, broadcasts_nothing, law_subscribers_are_due_what_is_broadcast,
    TelemetryError, TelemetryServer, MAX_TELEMETRY_SUBSCRIBERS,
};
use serde_json::Value;
use tokio::sync::broadcast::{Receiver, Sender};
use vstd::prelude::*;
use vstd::string::*;
use vstd::utf8::encode_utf8;

verus! {

/// How a request for the telemetry stream is answered that comes with or without valid
/// credentials while so many subscribers are being served.
pub open spec fn telemetry_answer(granted: bool, active: nat) -> Answer {
    if !granted {
        gate(false, stream_refusal())
    } else if active < MAX_TELEMETRY_SUBSCRIBERS {
        Answer::Serve
    } else {
        Answer::Refuse(
            SERVICE_UNAVAILABLE,
            "Telemetry unavailable: "@ + TelemetryError::LimitReached.text(),
        )
    }
}

/// The number of subscribers after such a request.
pub open spec fn telemetry_active(granted: bool, active: nat) -> nat {
    if granted {
        after_subscribe(active)
    } else {
        active
    }
}

/// Opens the stream of events to a client who may have it.
pub fn open_event_stream<F: Fn(&str) -> bool>(
    events: &Sender<Value>,
    require_pairing: bool,
    authorization: Option<&str>,
    is_authenticated: F,
) -> (stream: Result<Receiver<Value>, Refusal>)
    requires
        forall|t: &str| #[trigger] is_authenticated.requires((t,)),
    ensures
        let_in(require_pairing, is_authenticated, header_token(authorization), stream is Ok),
        answer_of(stream) == gate(stream is Ok, stream_refusal()),
        stream matches Ok(rx) ==> hears(*events, rx) && due(*events, rx) == Seq::<Json>::empty(),
{
    match authorize_stream(require_pairing, authorization, is_authenticated) {
        Ok(()) => {
            let rx = new_receiver(events);
            assert(due(*events, rx) =~= Seq::<Json>::empty());
            Ok(rx)
        },
        Err(refusal) => Err(refusal),
    }
}

/// Opens the telemetry stream to a client who may have it, if the limit has not been reached.
pub fn open_telemetry_stream<F: Fn(&str) -> bool>(
    server: &mut TelemetryServer,
    require_pairing: bool,
    authorization: Option<&str>,
    is_authenticated: F,
) -> (stream: Result<Receiver<Value>, Refusal>)
    requires
        forall|t: &str| #[trigger] is_authenticated.requires((t,)),
    ensures
        exists|granted: bool|
            {
                &&& #[trigger] let_in(
                    require_pairing,
                    is_authenticated,
                    header_token(authorization),
                    granted,
                )
                &&& answer_of(stream) == telemetry_answer(granted, old(server).active())
                &&& final(server).active() == telemetry_active(granted, old(server).active())
            },
        stream matches Ok(rx) ==> {
            &&& final(server).serves(rx)
            &&& final(server).heard_by(rx)
            &&& final(server).due(rx) == Seq::<Json>::empty()
        },
        broadcasts_nothing(*old(server), *final(server)),
{
    match authorize_stream(require_pairing, authorization, is_authenticated) {
        Ok(()) => {
            assert(let_in(require_pairing, is_authenticated, header_token(authorization), true));
        },
        Err(refusal) => {
            assert(let_in(require_pairing, is_authenticated, header_token(authorization), false));
            return Err(refusal);
        },
    }
    match server.subscribe() {
        Ok(rx) => Ok(rx),
        Err(e) => {
            let mut body = "Telemetry unavailable: ".to_owned();
            body.append(e.message().as_str());
            Err(Refusal { status: SERVICE_UNAVAILABLE, body })
        },
    }
}

/// What is sent on a stream for what the channel delivered: the text of the value, encrypted where
/// there is a secret to do so with. `None` stands for values that the client was too slow to get,
/// and nothing is sent for those.
pub fn event_data(delivered: Option<Value>, secret: Option<&str>) -> (data: Option<String>)
    ensures
        data is Some <==> delivered is Some,
        data matches Some(wire) ==> carries(
            wire@,
            json_written(json_of(delivered->0)),
            secret_view(secret),
        ),
        delivered matches Some(value) ==> json_of(value).is_flat() ==> reads_back(json_of(value)),
        delivered is Some ==> secret_shaped(secret_view(secret)),
{
    match delivered {
        Some(value) => Some(protect(to_text(&value), secret)),
        None => None,
    }
}

/// A request for the telemetry stream that is refused, for whatever reason, takes no place; one
/// that is served takes one, within the limit.
pub proof fn law_refused_takes_no_place(granted: bool, active: nat)
    ensures
        telemetry_answer(granted, active) is Refuse ==> telemetry_active(granted, active) == active,
        telemetry_answer(granted, active) is Serve ==> telemetry_active(granted, active) == active
            + 1 <= MAX_TELEMETRY_SUBSCRIBERS,
{
}

/// A client with the gateway's secret receives what was delivered: it decrypts what was sent to the
/// text of the value, and reads the value out of it where the text can be read back.
pub proof fn law_client_receives_the_event(
    wire: Seq<char>,
    json: Json,
    secret: Option<Seq<char>>,
)
    requires
        carries(wire, json_written(json), secret),
        sendable(json_written(json), secret),
    ensures
        received(wire, secret) == json_written(json),
        reads_back(json) ==> json_read(received(wire, secret)) == Some(json),
{
}

/// Whether these texts are what is sent on a stream for these values, under the secrets of the time.
pub open spec fn streams(
    wires: Seq<Seq<char>>,
    values: Seq<Json>,
    secrets: Seq<Option<Seq<char>>>,
) -> bool {
    &&& wires.len() == values.len() == secrets.len()
    &&& forall|i: int|
        0 <= i < wires.len() ==> carries(
            #[trigger] wires[i],
            json_written(values[i]),
            secrets[i],
        )
}

/// Whether a client who has the secret receives the text: out of a payload where the secret is a
/// usable key, else as it is.
pub open spec fn arrives(wire: Seq<char>, text: Seq<char>, secret: Option<Seq<char>>) -> bool {
    &&& received(wire, secret) == text
    &&& match secret {
        Some(key) => if cipher_key(key) is Some {
            opened_payload(wire, key) == Some(text)
        } else {
            wire == text
        },
        None => wire == text,
    }
}

/// Whether a client who has these secrets receives the texts of exactly these values, in this order.
pub open spec fn receives(
    wires: Seq<Seq<char>>,
    values: Seq<Json>,
    secrets: Seq<Option<Seq<char>>>,
) -> bool {
    &&& wires.len() == values.len()
    &&& forall|i: int|
        0 <= i < wires.len() ==> arrives(#[trigger] wires[i], json_written(values[i]), secrets[i])
}

/// Whether each of these texts of values is short enough to go out under the secret of its time.
pub open spec fn all_sendable(values: Seq<Json>, secrets: Seq<Option<Seq<char>>>) -> bool {
    forall|i: int| 0 <= i < values.len() ==> sendable(json_written(#[trigger] values[i]), secrets[i])
}

/// What is sent on a stream is received.
proof fn lemma_streams_arrive(
    wires: Seq<Seq<char>>,
    values: Seq<Json>,
    secrets: Seq<Option<Seq<char>>>,
)
    requires
        streams(wires, values, secrets),
        all_sendable(values, secrets),
    ensures
        receives(wires, values, secrets),
{
    assert forall|i: int| 0 <= i < wires.len() implies arrives(
        #[trigger] wires[i],
        json_written(values[i]),
        secrets[i],
    ) by {
        law_client_receives_the_event(wires[i], values[i], secrets[i]);
    }
}

/// The client of an event stream receives exactly what is sent after the stream was opened, in order
/// and each value once, where all is sent through one handle and the stream sends what is due to its
/// receiver.
pub proof fn law_event_stream_delivers_in_order(
    handles: Seq<Sender<Value>>,
    values: Seq<Json>,
    rx: Receiver<Value>,
    wires: Seq<Seq<char>>,
    secrets: Seq<Option<Seq<char>>>,
)
    requires
        handles.len() == values.len() + 1,
        forall|i: int|
            0 <= i < values.len() ==> #[trigger] handed(handles[i], values[i], handles[i + 1]),
        hears(handles[0], rx),
        due(handles[0], rx) == Seq::<Json>::empty(),
        streams(wires, due(handles.last(), rx), secrets),
        all_sendable(values, secrets),
    ensures
        receives(wires, values, secrets),
{
    law_receivers_are_due_what_is_sent(handles, values, rx);
    assert(Seq::<Json>::empty() + values =~= values);
    lemma_streams_arrive(wires, values, secrets);
}

/// The client of a telemetry stream receives exactly what is broadcast after the stream was opened,
/// in order and each value once, where the stream sends what is due to its receiver.
pub proof fn law_telemetry_stream_delivers_in_order(
    servers: Seq<TelemetryServer>,
    values: Seq<Json>,
    rx: Receiver<Value>,
    wires: Seq<Seq<char>>,
    secrets: Seq<Option<Seq<char>>>,
)
    requires
        servers.len() == values.len() + 1,
        forall|i: int|
            0 <= i < values.len() ==> #[trigger] broadcasts(servers[i], values[i], servers[i + 1]),
        servers[0].heard_by(rx),
        servers[0].active() > 0,
        servers[0].due(rx) == Seq::<Json>::empty(),
        streams(wires, servers.last().due(rx), secrets),
        all_sendable(values, secrets),
    ensures
        receives(wires, values, secrets),
{
    law_subscribers_are_due_what_is_broadcast(servers, values, rx);
    assert(Seq::<Json>::empty() + values =~= values);
    lemma_streams_arrive(wires, values, secrets);
}

// ---------------------------------------------------------------------------------------------
// What calls give
// ---------------------------------------------------------------------------------------------

/// An event stream is opened to whoever the check of the header's token lets in, and to everyone where
/// no pairing is required: with a receiver of the channel that starts behind all that was sent so far.
/// Everyone else is refused with status 401.
pub proof fn law_event_stream_is_decided_by_the_token<F: Fn(&str) -> bool>(
    events: &Sender<Value>,
    require_pairing: bool,
    text: &str,
    token: Seq<char>,
    is_authenticated: F,
    stream: Result<Receiver<Value>, Refusal>,
)
    requires
        call_ensures(
            open_event_stream::<F>,
            (events, require_pairing, Some(text), is_authenticated),
            stream,
        ),
        text@ == "Bearer "@ + token,
    ensures
        !require_pairing ==> stream is Ok,
        (forall|t: &str, verdict: bool|
            t@ == token && #[trigger] is_authenticated.ensures((t,), verdict) ==> verdict)
            ==> stream is Ok,
        require_pairing && (forall|t: &str, verdict: bool|
            t@ == token && #[trigger] is_authenticated.ensures((t,), verdict) ==> !verdict)
            ==> stream is Err,
        stream matches Ok(rx) ==> feeds(*events, rx) && starts_at(*events, rx) == offered(
            *events,
        ).len(),
        stream matches Err(refusal) ==> refusal.status == 401 && refusal.body@
            == "Unauthorized — provide Authorization: Bearer <token>"@,
{
    assert(text@.skip("Bearer "@.len() as int) =~= token);
    if let Ok(rx) = stream {
        assert(due(*events, rx).len() == 0);
    }
}

/// An event stream without a header of the form `Bearer <token>` is decided by the check of the empty
/// token.
pub proof fn law_event_stream_without_token<F: Fn(&str) -> bool>(
    events: &Sender<Value>,
    require_pairing: bool,
    authorization: Option<&str>,
    is_authenticated: F,
    stream: Result<Receiver<Value>, Refusal>,
)
    requires
        call_ensures(
            open_event_stream::<F>,
            (events, require_pairing, authorization, is_authenticated),
            stream,
        ),
        authorization matches Some(text) ==> !"Bearer "@.is_prefix_of(text@),
    ensures
        !require_pairing ==> stream is Ok,
        (forall|t: &str, verdict: bool|
            t@.len() == 0 && #[trigger] is_authenticated.ensures((t,), verdict) ==> verdict)
            ==> stream is Ok,
        require_pairing && (forall|t: &str, verdict: bool|
            t@.len() == 0 && #[trigger] is_authenticated.ensures((t,), verdict) ==> !verdict)
            ==> stream is Err,
        stream matches Ok(rx) ==> feeds(*events, rx) && starts_at(*events, rx) == offered(
            *events,
        ).len(),
        stream matches Err(refusal) ==> refusal.status == 401 && refusal.body@
            == "Unauthorized — provide Authorization: Bearer <token>"@,
{
    if let Ok(rx) = stream {
        assert(due(*events, rx).len() == 0);
    }
}

/// The telemetry stream is opened to whoever the check of the header's token lets in, and to everyone
/// where no pairing is required, while fewer than 20 subscribers are being served; that takes a place.
/// Who is let in while 20 or more are being served is refused with status 503, everyone else with
/// status 401, and neither takes a place. Nothing is broadcast.
pub proof fn law_telemetry_stream_is_decided_by_token_and_limit<F: Fn(&str) -> bool>(
    server: &mut TelemetryServer,
    require_pairing: bool,
    text: &str,
    token: Seq<char>,
    is_authenticated: F,
    stream: Result<Receiver<Value>, Refusal>,
)
    requires
        call_ensures(
            open_telemetry_stream::<F>,
            (server, require_pairing, Some(text), is_authenticated),
            stream,
        ),
        text@ == "Bearer "@ + token,
    ensures
        ({
            let let_in = !require_pairing || forall|t: &str, verdict: bool|
                t@ == token && #[trigger] is_authenticated.ensures((t,), verdict) ==> verdict;
            let turned_down = require_pairing && forall|t: &str, verdict: bool|
                t@ == token && #[trigger] is_authenticated.ensures((t,), verdict) ==> !verdict;
            &&& let_in && old(server).active() < 20 ==> stream is Ok
            &&& let_in && old(server).active() >= 20 ==> (stream matches Err(refusal)
                && refusal.status == 503)
            &&& turned_down ==> (stream matches Err(refusal) && refusal.status == 401)
        }),
        stream matches Ok(rx) ==> {
            &&& old(server).active() < 20
            &&& final(server).active() == old(server).active() + 1
            &&& final(server).serves(rx)
            &&& final(server).heard_by(rx)
            &&& final(server).due(rx).len() == 0
        },
        stream matches Err(refusal) ==> {
            &&& final(server).active() == old(server).active()
            &&& refusal.status == 401 || refusal.status == 503
            &&& refusal.status == 401 ==> refusal.body@
                == "Unauthorized — provide Authorization: Bearer <token>"@
            &&& refusal.status == 503 ==> refusal.body@
                == "Telemetry unavailable: Maximum telemetry subscribers reached (20)"@
        },
        final(server).sent() == old(server).sent(),
{
    assert(text@.skip("Bearer "@.len() as int) =~= token);
    lemma_unavailable();
}

/// The telemetry stream without a header of the form `Bearer <token>` is decided by the check of the
/// empty token, and by the limit.
pub proof fn law_telemetry_stream_without_token<F: Fn(&str) -> bool>(
    server: &mut TelemetryServer,
    require_pairing: bool,
    authorization: Option<&str>,
    is_authenticated: F,
    stream: Result<Receiver<Value>, Refusal>,
)
    requires
        call_ensures(
            open_telemetry_stream::<F>,
            (server, require_pairing, authorization, is_authenticated),
            stream,
        ),
        authorization matches Some(text) ==> !"Bearer "@.is_prefix_of(text@),
    ensures
        ({
            let let_in = !require_pairing || forall|t: &str, verdict: bool|
                t@.len() == 0 && #[trigger] is_authenticated.ensures((t,), verdict) ==> verdict;
            let turned_down = require_pairing && forall|t: &str, verdict: bool|
                t@.len() == 0 && #[trigger] is_authenticated.ensures((t,), verdict) ==> !verdict;
            &&& let_in && old(server).active() < 20 ==> stream is Ok
            &&& let_in && old(server).active() >= 20 ==> (stream matches Err(refusal)
                && refusal.status == 503)
            &&& turned_down ==> (stream matches Err(refusal) && refusal.status == 401)
        }),
        stream is Ok ==> final(server).active() == old(server).active() + 1,
        stream is Err ==> final(server).active() == old(server).active(),
        final(server).sent() == old(server).sent(),
{
}

/// The text of the refusal at the limit.
proof fn lemma_unavailable()
    ensures
        "Telemetry unavailable: "@ + "Maximum telemetry subscribers reached (20)"@
            == "Telemetry unavailable: Maximum telemetry subscribers reached (20)"@,
{
    reveal_strlit("Telemetry unavailable: ");
    reveal_strlit("Maximum telemetry subscribers reached (20)");
    reveal_strlit("Telemetry unavailable: Maximum telemetry subscribers reached (20)");
    assert("Telemetry unavailable: "@ + "Maximum telemetry subscribers reached (20)"@
        =~= "Telemetry unavailable: Maximum telemetry subscribers reached (20)"@);
}

/// What is sent on a stream for a value that was delivered is received as the compact text of exactly
/// that value by a client who has the same secret, or none where there is none; without a secret that
/// text is sent as it is. For values that were missed nothing is sent.
pub proof fn law_client_receives_the_value(
    value: Value,
    secret: Option<&str>,
    data: Option<String>,
    missed: Option<String>,
    arrived: String,
    text: String,
)
    requires
        call_ensures(event_data, (Some(value), secret), data),
        call_ensures(event_data, (None, secret), missed),
        data matches Some(wire) ==> arrived@ == wire@,
        call_ensures(unprotect, (arrived, secret), text),
        secret matches Some(key) ==> base64_bytes(key@) is None || base64_bytes(key@)->0.len() != 32
            || encode_utf8(json_written(json_of(value))).len() <= 274_877_906_816,
    ensures
        data is Some,
        missed is None,
        text@ == json_written(json_of(value)),
        secret is None ==> data->0@ == json_written(json_of(value)),
{
}

/// Under a usable key, what is sent on a stream is encrypted: it is the base64 text of some nonce of 12
/// bytes and of what the cipher makes of the value's text with it.
pub proof fn law_events_are_encrypted(value: Value, key_b64: &str, data: Option<String>)
    requires
        call_ensures(event_data, (Some(value), Some(key_b64)), data),
        base64_bytes(key_b64@) is Some,
        base64_bytes(key_b64@)->0.len() == 32,
        encode_utf8(json_written(json_of(value))).len() <= 274_877_906_816,
    ensures
        data matches Some(wire) && exists|nonce: Seq<u8>|
            {
                &&& nonce.len() == 12
                &&& wire@ == base64_text(
                    nonce + #[trigger] sealed(
                        base64_bytes(key_b64@)->0,
                        nonce,
                        encode_utf8(json_written(json_of(value))),
                    ),
                )
            },
{
    lemma_payload_has_a_nonce(data->0@, json_written(json_of(value)), key_b64@);
}

/// An object whose members are texts, truth values, natural numbers or null, under keys that do not
/// begin with a dollar sign, is read back out of the text that is sent for it.
pub proof fn law_flat_values_are_read_back(
    value: Value,
    members: Map<Seq<char>, Json>,
    data: Option<String>,
)
    requires
        call_ensures(event_data, (Some(value), None), data),
        json_of(value) == Json::Object(members),
        forall|key: Seq<char>| #[trigger]
            members.contains_key(key) ==> (key.len() == 0 || key[0] != '$') && (members[key] is Text
                || members[key] is Bool || members[key] is Natural || members[key] is Null),
    ensures
        data matches Some(wire) && json_read(wire@) == Some(json_of(value)),
{
}

} // verus!
