//! Observation of the agent, and its announcement to the dashboard.
use crate::channel::{due, feeds, hears, lemma_handed_is_due, offered, send, starts_at};
use crate::json::{
    bool_value, copy, count_value, is_ordinary_key, json_of, lemma_typed_is_flat, put, put_text,
    typed_object, Json,
};
use serde_json::Value;
use tokio::sync::broadcast::{Receiver, Sender};
use vstd::prelude::*;

verus! {

/// A span of time.
#[derive(Clone, Copy, Debug, PartialEq, Eq, Structural)]
pub struct Elapsed {
    /// Whole seconds.
    pub secs: u64,
    /// The rest, in nanoseconds.
    pub nanos: u32,
}

impl Elapsed {
    /// The whole milliseconds in the span.
    pub open spec fn millis(self) -> int {
        self.secs * 1000 + self.nanos as int / 1_000_000
    }

    /// The whole milliseconds in the span.
    pub fn as_millis(&self) -> (millis: u128)
        ensures
            millis == self.millis(),
    {
        self.secs as u128 * 1000 + self.nanos as u128 / 1_000_000
    }
}

/// Something that the agent did. `D` is what an event holds besides what is announced of it.
pub enum ObserverEvent<D> {
    LlmRequest { provider: String, model: String, detail: D },
    ToolCall { tool: String, duration: Elapsed, success: bool },
    ToolCallStart { tool: String },
    Error { component: String, message: String },
    AgentStart { provider: String, model: String },
    AgentEnd {
        provider: String,
        model: String,
        duration: Elapsed,
        tokens_used: Option<u64>,
        /// The cost as a JSON number; null where it is not known.
        cost_usd: Value,
    },
    /// An event that is not announced.
    Other(D),
}

impl<D> ObserverEvent<D> {
    /// What is announced of an event at a time; `None` for an event that is not announced.
    pub open spec fn announcement(self, timestamp: Seq<char>) -> Option<Json> {
        match self.facts() {
            Some(facts) => Some(facts.with_text("timestamp"@, timestamp)),
            None => None,
        }
    }

    /// What is announced of an event besides the time; `None` for an event that is not announced.
    pub open spec fn facts(self) -> Option<Json> {
        match self {
            ObserverEvent::LlmRequest { provider, model, .. } => Some(
                Json::typed("llm_request"@)
                    .with_text("provider"@, provider@)
                    .with_text("model"@, model@),
            ),
            ObserverEvent::ToolCall { tool, duration, success } => Some(
                Json::typed("tool_call"@)
                    .with_text("tool"@, tool@)
                    .with("duration_ms"@, Json::Natural(duration.millis() as u64))
                    .with("success"@, Json::Bool(success)),
            ),
            ObserverEvent::ToolCallStart { tool } => Some(
                Json::typed("tool_call_start"@)
                    .with_text("tool"@, tool@),
            ),
            ObserverEvent::Error { component, message } => Some(
                Json::typed("error"@)
                    .with_text("component"@, component@)
                    .with_text("message"@, message@),
            ),
            ObserverEvent::AgentStart { provider, model } => Some(
                Json::typed("agent_start"@)
                    .with_text("provider"@, provider@)
                    .with_text("model"@, model@),
            ),
            ObserverEvent::AgentEnd { provider, model, duration, tokens_used, cost_usd } => Some(
                Json::typed("agent_end"@)
                    .with_text("provider"@, provider@)
                    .with_text("model"@, model@)
                    .with("duration_ms"@, Json::Natural(duration.millis() as u64))
                    .with("tokens_used"@, Json::count(tokens_used))
                    .with("cost_usd"@, json_of(cost_usd)),
            ),
            ObserverEvent::Other(_) => None,
        }
    }

    /// Whether the event can be announced: a duration is announced as a number of milliseconds,
    /// which must fit in 64 bits.
    pub open spec fn in_range(self) -> bool {
        match self {
            ObserverEvent::ToolCall { duration, .. } => duration.millis() <= u64::MAX,
            ObserverEvent::AgentEnd { duration, .. } => duration.millis() <= u64::MAX,
            _ => true,
        }
    }
}

/// Whether there are digits from one place of a text up to another.
pub open spec fn digits(text: Seq<char>, from: int, to: int) -> bool {
    forall|i: int| from <= i < to ==> '0' <= #[trigger] text[i] <= '9'
}

/// Whether a text is a date and a time in UTC of the form `YYYY-MM-DDTHH:MM:SS.FFF+00:00`, where the
/// year takes so many characters and the fraction, with its point, so many. A year of other than
/// four digits has a sign. There may be no fraction, or one of three, six or nine digits.
pub open spec fn utc_layout(text: Seq<char>, year: int, fraction: int) -> bool {
    &&& text.len() == year + 15 + fraction + 6
    &&& (year == 4 && digits(text, 0, year)) || (year >= 5 && (text[0] == '+' || text[0] == '-')
        && digits(text, 1, year))
    &&& text[year] == '-' && digits(text, year + 1, year + 3)
    &&& text[year + 3] == '-' && digits(text, year + 4, year + 6)
    &&& text[year + 6] == 'T' && digits(text, year + 7, year + 9)
    &&& text[year + 9] == ':' && digits(text, year + 10, year + 12)
    &&& text[year + 12] == ':' && digits(text, year + 13, year + 15)
    &&& fraction == 0 || fraction == 4 || fraction == 7 || fraction == 10
    &&& fraction > 0 ==> text[year + 15] == '.' && digits(text, year + 16, year + 15 + fraction)
    &&& text.skip(year + 15 + fraction) == "+00:00"@
}

/// Whether a text is a date and a time in UTC, as RFC 3339 writes them.
pub open spec fn is_utc_time(text: Seq<char>) -> bool {
    exists|year: int, fraction: int| #[trigger] utc_layout(text, year, fraction)
}

/// `to_rfc3339` of chrono's `Utc::now`. The text depends on the clock, which is taken to stand after
/// 1970: nothing is claimed of it but its form.
#[verifier::external_body]
fn now_rfc3339() -> (timestamp: String)
    ensures
        is_utc_time(timestamp@),
{
    chrono::Utc::now().to_rfc3339()
}

/// The number of milliseconds in a span, as it is announced.
fn millis_value(duration: &Elapsed) -> (value: Value)
    requires
        duration.millis() <= u64::MAX,
    ensures
        json_of(value) == Json::Natural(duration.millis() as u64),
{
    count_value(Some(duration.as_millis() as u64))
}

/// What is announced of an event at a time.
pub fn announce<D>(event: &ObserverEvent<D>, timestamp: &str) -> (announcement: Option<Value>)
    requires
        event.in_range(),
    ensures
        match announcement {
            Some(value) => event.announcement(timestamp@) == Some(json_of(value)),
            None => event.announcement(timestamp@) is None,
        },
{
    let mut object: Value;
    match event {
        ObserverEvent::LlmRequest { provider, model, .. } => {
            object = typed_object("llm_request");
            put_text(&mut object, "provider", provider.as_str());
            put_text(&mut object, "model", model.as_str());
        },
        ObserverEvent::ToolCall { tool, duration, success } => {
            object = typed_object("tool_call");
            put_text(&mut object, "tool", tool.as_str());
            put(&mut object, "duration_ms", millis_value(duration));
            put(&mut object, "success", bool_value(*success));
        },
        ObserverEvent::ToolCallStart { tool } => {
            object = typed_object("tool_call_start");
            put_text(&mut object, "tool", tool.as_str());
        },
        ObserverEvent::Error { component, message } => {
            object = typed_object("error");
            put_text(&mut object, "component", component.as_str());
            put_text(&mut object, "message", message.as_str());
        },
        ObserverEvent::AgentStart { provider, model } => {
            object = typed_object("agent_start");
            put_text(&mut object, "provider", provider.as_str());
            put_text(&mut object, "model", model.as_str());
        },
        ObserverEvent::AgentEnd { provider, model, duration, tokens_used, cost_usd } => {
            object = typed_object("agent_end");
            put_text(&mut object, "provider", provider.as_str());
            put_text(&mut object, "model", model.as_str());
            put(&mut object, "duration_ms", millis_value(duration));
            put(&mut object, "tokens_used", count_value(*tokens_used));
            put(&mut object, "cost_usd", copy(cost_usd));
        },
        ObserverEvent::Other(_) => {
            return None;
        },
    }
    put_text(&mut object, "timestamp", timestamp);
    Some(object)
}

/// The `type` under which an event is announced; the empty text for one that is not.
pub open spec fn announced_type<D>(event: ObserverEvent<D>) -> Seq<char> {
    match event {
        ObserverEvent::LlmRequest { .. } => "llm_request"@,
        ObserverEvent::ToolCall { .. } => "tool_call"@,
        ObserverEvent::ToolCallStart { .. } => "tool_call_start"@,
        ObserverEvent::Error { .. } => "error"@,
        ObserverEvent::AgentStart { .. } => "agent_start"@,
        ObserverEvent::AgentEnd { .. } => "agent_end"@,
        ObserverEvent::Other(_) => Seq::empty(),
    }
}

/// Whether a field can stand beside the `type` and the `timestamp` of an announcement, under an
/// ordinary key.
spec fn is_field(key: Seq<char>) -> bool {
    key != "type"@ && key != "timestamp"@ && is_ordinary_key(key)
}

/// The fields of announcements are told apart from their `type` and their `timestamp`.
proof fn lemma_fields()
    ensures
        "timestamp"@ != "type"@,
        is_ordinary_key("timestamp"@),
        is_field("provider"@),
        is_field("model"@),
        is_field("tool"@),
        is_field("duration_ms"@),
        is_field("success"@),
        is_field("component"@),
        is_field("message"@),
        is_field("tokens_used"@),
        is_field("cost_usd"@),
{
    reveal_strlit("type");
    reveal_strlit("timestamp");
    reveal_strlit("provider");
    reveal_strlit("model");
    reveal_strlit("tool");
    reveal_strlit("duration_ms");
    reveal_strlit("success");
    reveal_strlit("component");
    reveal_strlit("message");
    reveal_strlit("tokens_used");
    reveal_strlit("cost_usd");
    assert("type"@[0] == 't' && "type"@[1] == 'y');
    assert("timestamp"@[0] == 't' && "timestamp"@[1] == 'i');
    assert("tool"@[0] == 't' && "tool"@[1] == 'o');
    assert("provider"@[0] == 'p' && "model"@[0] == 'm' && "duration_ms"@[0] == 'd');
    assert("success"@[0] == 's' && "component"@[0] == 'c' && "message"@[0] == 'm');
    assert("tokens_used"@[0] == 't' && "tokens_used"@[1] == 'o' && "cost_usd"@[0] == 'c');
}

/// Every announcement says under `type` what kind of event it is of, and under `timestamp` when it
/// was made; no other field stands in the place of these.
pub proof fn law_announcements_are_typed_and_timed<D>(event: ObserverEvent<D>, timestamp: Seq<char>)
    ensures
        event.announcement(timestamp) is None <==> event is Other,
        event.announcement(timestamp) matches Some(json) ==> {
            &&& json.member("type"@).text() == Some(announced_type(event))
            &&& json.member("timestamp"@).text() == Some(timestamp)
        },
{
    lemma_fields();
}

/// Announcements are flat objects, of which a client reads back what was written, unless the cost
/// is a fraction.
pub proof fn law_announcements_are_flat<D>(event: ObserverEvent<D>, timestamp: Seq<char>)
    requires
        event matches ObserverEvent::AgentEnd { cost_usd, .. } ==> json_of(cost_usd) is Null
            || json_of(cost_usd) is Natural,
    ensures
        event.announcement(timestamp) matches Some(json) ==> json.is_flat(),
{
    lemma_fields();
    lemma_typed_is_flat(announced_type(event));
}

/// An event that is announced at all is announced exactly once, and what was announced before stays
/// announced.
pub proof fn law_announced_exactly_once<D>(
    event: ObserverEvent<D>,
    timestamp: Seq<char>,
    before: Seq<Json>,
    after: Seq<Json>,
)
    requires
        after == announced_after(before, event, timestamp),
    ensures
        before.is_prefix_of(after),
        after.len() == before.len() + if event is Other {
            0nat
        } else {
            1nat
        },
{
}

/// What has been announced after an event, by what was announced before it.
pub open spec fn announced_after<D>(
    before: Seq<Json>,
    event: ObserverEvent<D>,
    timestamp: Seq<char>,
) -> Seq<Json> {
    match event.announcement(timestamp) {
        Some(json) => before.push(json),
        None => before,
    }
}

/// What has been announced after a sequence of events, by what was announced before it.
pub open spec fn announced_over<D>(
    before: Seq<Json>,
    events: Seq<ObserverEvent<D>>,
    times: Seq<Seq<char>>,
) -> Seq<Json>
    decreases events.len(),
{
    if events.len() == 0 {
        before
    } else {
        announced_after(
            announced_over(before, events.drop_last(), times.drop_last()),
            events.last(),
            times.last(),
        )
    }
}

/// How many of these events are announced.
pub open spec fn announced_count<D>(events: Seq<ObserverEvent<D>>) -> nat
    decreases events.len(),
{
    if events.len() == 0 {
        0
    } else {
        announced_count(events.drop_last()) + if events.last() is Other {
            0nat
        } else {
            1nat
        }
    }
}

/// Whether the announcement of an event stands in its place behind what was announced before: behind
/// one announcement for each announced event before it.
pub open spec fn stands_in_place<D>(
    before: Seq<Json>,
    events: Seq<ObserverEvent<D>>,
    times: Seq<Seq<char>>,
    i: int,
) -> bool {
    let place = before.len() + announced_count(events.take(i));
    &&& place < announced_over(before, events, times).len()
    &&& events[i].announcement(times[i]) == Some(announced_over(before, events, times)[place as int])
}

/// A sequence of events adds one announcement for each event that is announced.
proof fn lemma_announcements_are_counted<D>(
    before: Seq<Json>,
    events: Seq<ObserverEvent<D>>,
    times: Seq<Seq<char>>,
)
    requires
        times.len() == events.len(),
    ensures
        before.is_prefix_of(announced_over(before, events, times)),
        announced_over(before, events, times).len() == before.len() + announced_count(events),
    decreases events.len(),
{
    if events.len() > 0 {
        lemma_announcements_are_counted(before, events.drop_last(), times.drop_last());
    }
}

/// The announcement of an event stands in its place.
proof fn lemma_stands_in_place<D>(
    before: Seq<Json>,
    events: Seq<ObserverEvent<D>>,
    times: Seq<Seq<char>>,
    i: int,
)
    requires
        times.len() == events.len(),
        0 <= i < events.len(),
        !(events[i] is Other),
    ensures
        stands_in_place(before, events, times, i),
    decreases events.len(),
{
    let fewer = events.drop_last();
    lemma_announcements_are_counted(before, fewer, times.drop_last());
    if i < fewer.len() {
        lemma_stands_in_place(before, fewer, times.drop_last(), i);
        assert(fewer.take(i) =~= events.take(i));
    } else {
        assert(events.take(i) =~= fewer);
    }
}

/// After a sequence of events there stands, behind what was announced before, one announcement for
/// each event that is announced, in the order of the events, and nothing else.
pub proof fn law_announcements_stand_in_order<D>(
    before: Seq<Json>,
    events: Seq<ObserverEvent<D>>,
    times: Seq<Seq<char>>,
)
    requires
        times.len() == events.len(),
    ensures
        before.is_prefix_of(announced_over(before, events, times)),
        announced_over(before, events, times).len() == before.len() + announced_count(events),
        forall|i: int|
            #![trigger events[i]]
            0 <= i < events.len() && !(events[i] is Other) ==> stands_in_place(
                before,
                events,
                times,
                i,
            ),
{
    lemma_announcements_are_counted(before, events, times);
    assert forall|i: int|
        #![trigger events[i]]
        0 <= i < events.len() && !(events[i] is Other) implies stands_in_place(
        before,
        events,
        times,
        i,
    ) by {
        lemma_stands_in_place(before, events, times, i);
    }
}

/// Two announcements of one event differ at most in their timestamp.
pub proof fn law_only_the_timestamp_differs<D>(
    event: ObserverEvent<D>,
    one: Seq<char>,
    other: Seq<char>,
)
    ensures
        event.announcement(one) is Some <==> event.announcement(other) is Some,
        event.announcement(one) matches Some(json) ==> event.announcement(other) == Some(
            json.with_text("timestamp"@, other),
        ),
{
    if event.announcement(one) is Some {
        let facts = event.facts()->0;
        match facts {
            Json::Object(members) => {
                assert(members.insert("timestamp"@, Json::Text(one)).insert(
                    "timestamp"@,
                    Json::Text(other),
                ) =~= members.insert("timestamp"@, Json::Text(other)));
            },
            _ => {},
        }
    }
}

/// Someone who is told what the agent does.
pub trait Observer {
    /// What an event holds besides what is announced of it.
    type Detail;

    /// A measurement.
    type Metric;

    /// Whether the observer can be told of an event.
    open spec fn accepts(&self, event: &ObserverEvent<Self::Detail>) -> bool {
        true
    }

    /// Tells the observer of an event.
    fn record_event(&mut self, event: &ObserverEvent<Self::Detail>)
        requires
            old(self).accepts(event),
    ;

    /// Tells the observer of a measurement.
    fn record_metric(&mut self, metric: &Self::Metric);

    /// Tells the observer to write out what it holds back.
    fn flush(&mut self);

    /// The name of the observer.
    fn name(&self) -> (name: &str);
}

/// The name of an observer that announces events.
pub const BROADCAST_NAME: &'static str = "broadcast";

/// An observer that passes everything on to another and announces events on a broadcast channel.
pub struct BroadcastObserver<O> {
    inner: O,
    tx: Sender<Value>,
}

impl<O> BroadcastObserver<O> {
    /// The observer that everything is passed on to.
    pub closed spec fn inner(&self) -> O {
        self.inner
    }

    /// What has been announced, oldest first.
    pub closed spec fn announced(&self) -> Seq<Json> {
        offered(self.tx)
    }

    /// Whether a receiver gets what is announced.
    pub closed spec fn reaches(&self, rx: Receiver<Value>) -> bool {
        feeds(self.tx, rx)
    }

    /// Whether a receiver has been made that gets what is announced.
    pub closed spec fn heard_by(&self, rx: Receiver<Value>) -> bool {
        hears(self.tx, rx)
    }

    /// What has been announced since a receiver was made, oldest first.
    pub closed spec fn due(&self, rx: Receiver<Value>) -> Seq<Json> {
        due(self.tx, rx)
    }

    /// An observer that passes everything on to `inner` and announces events through `tx`.
    pub fn new(inner: O, tx: Sender<Value>) -> (observer: Self)
        ensures
            observer.inner() == inner,
            observer.announced() == offered(tx),
            forall|rx: Receiver<Value>| observer.reaches(rx) == feeds(tx, rx),
            forall|rx: Receiver<Value>| observer.heard_by(rx) == hears(tx, rx),
            forall|rx: Receiver<Value>| observer.due(rx) == due(tx, rx),
    {
        BroadcastObserver { inner, tx }
    }
}

/// Whether an observer is what becomes of another one by announcing an event at a time: what is
/// announced of the event is sent and due to every receiver, and the channel stays the same.
pub open spec fn announces_at<O, D>(
    before: BroadcastObserver<O>,
    event: ObserverEvent<D>,
    timestamp: Seq<char>,
    after: BroadcastObserver<O>,
) -> bool {
    &&& after.announced() == announced_after(before.announced(), event, timestamp)
    &&& forall|rx: Receiver<Value>| after.reaches(rx) == before.reaches(rx)
    &&& forall|rx: Receiver<Value>| #[trigger]
        before.heard_by(rx) ==> after.heard_by(rx) && after.due(rx) == announced_after(
            before.due(rx),
            event,
            timestamp,
        )
}

/// Whether an observer has the channel of another one, and nothing was announced.
pub open spec fn announces_nothing<O>(
    before: BroadcastObserver<O>,
    after: BroadcastObserver<O>,
) -> bool {
    &&& after.announced() == before.announced()
    &&& forall|rx: Receiver<Value>| after.reaches(rx) == before.reaches(rx)
    &&& forall|rx: Receiver<Value>| #[trigger]
        before.heard_by(rx) ==> after.heard_by(rx) && after.due(rx) == before.due(rx)
}

/// Over any sequence of events, what is announced, and what is due to a receiver, grows by exactly
/// the announcements of these events, in the order in which they are recorded.
pub proof fn law_events_are_announced_in_order<O, D>(
    observers: Seq<BroadcastObserver<O>>,
    events: Seq<ObserverEvent<D>>,
    times: Seq<Seq<char>>,
    rx: Receiver<Value>,
)
    requires
        observers.len() == events.len() + 1,
        times.len() == events.len(),
        forall|i: int|
            0 <= i < events.len() ==> #[trigger] announces_at(
                observers[i],
                events[i],
                times[i],
                observers[i + 1],
            ),
    ensures
        observers.last().announced() == announced_over(observers[0].announced(), events, times),
        observers[0].heard_by(rx) ==> observers.last().heard_by(rx) && observers.last().due(rx)
            == announced_over(observers[0].due(rx), events, times),
    decreases events.len(),
{
    if events.len() > 0 {
        let n = events.len() - 1;
        let shorter = observers.drop_last();
        assert forall|i: int| 0 <= i < n implies #[trigger] announces_at(
            shorter[i],
            events.drop_last()[i],
            times.drop_last()[i],
            shorter[i + 1],
        ) by {
            assert(announces_at(observers[i], events[i], times[i], observers[i + 1]));
        }
        law_events_are_announced_in_order(shorter, events.drop_last(), times.drop_last(), rx);
        assert(announces_at(observers[n], events[n], times[n], observers[n + 1]));
    }
}

impl<O: Observer> Observer for BroadcastObserver<O> {
    type Detail = O::Detail;

    type Metric = O::Metric;

    open spec fn accepts(&self, event: &ObserverEvent<O::Detail>) -> bool {
        self.inner().accepts(event) && event.in_range()
    }

    /// The inner observer is told of the event, which is then announced. The clock is read only for
    /// an event that is announced.
    fn record_event(&mut self, event: &ObserverEvent<O::Detail>)
        ensures
            exists|inner: &mut O|
                {
                    &&& *inner == old(self).inner()
                    &&& *final(inner) == final(self).inner()
                    &&& #[trigger] call_ensures(O::record_event, (inner, event), ())
                },
            *event is Other ==> announces_nothing(*old(self), *final(self)),
            exists|timestamp: Seq<char>|
                (*event is Other || is_utc_time(timestamp)) && #[trigger] announces_at(
                    *old(self),
                    *event,
                    timestamp,
                    *final(self),
                ),
    {
        self.inner.record_event(event);
        if let ObserverEvent::Other(_) = event {
            assert(announces_at(*old(self), *event, Seq::empty(), *self));
            return;
        }
        let timestamp = now_rfc3339();
        if let Some(value) = announce(event, timestamp.as_str()) {
            let ghost before = self.tx;
            let ghost json = json_of(value);
            send(&mut self.tx, value);
            proof {
                assert forall|rx: Receiver<Value>| hears(before, rx) implies hears(self.tx, rx)
                    && due(self.tx, rx) == due(before, rx).push(json) by {
                    lemma_handed_is_due(before, json, self.tx, rx);
                }
            }
        }
        assert(announces_at(*old(self), *event, timestamp@, *self));
    }

    /// The inner observer is told of the measurement, and nothing is announced.
    fn record_metric(&mut self, metric: &O::Metric)
        ensures
            exists|inner: &mut O|
                {
                    &&& *inner == old(self).inner()
                    &&& *final(inner) == final(self).inner()
                    &&& #[trigger] call_ensures(O::record_metric, (inner, metric), ())
                },
            announces_nothing(*old(self), *final(self)),
    {
        self.inner.record_metric(metric);
    }

    /// The inner observer is told to write out what it holds back, and nothing is announced.
    fn flush(&mut self)
        ensures
            exists|inner: &mut O|
                {
                    &&& *inner == old(self).inner()
                    &&& *final(inner) == final(self).inner()
                    &&& #[trigger] call_ensures(O::flush, (inner,), ())
                },
            announces_nothing(*old(self), *final(self)),
    {
        self.inner.flush();
    }

    fn name(&self) -> (name: &str)
        ensures
            name@ == "broadcast"@,
    {
        BROADCAST_NAME
    }
}

// ---------------------------------------------------------------------------------------------
// What calls give
// ---------------------------------------------------------------------------------------------

/// The announcement of an event is an object that holds the event's type, each field of the event that
/// is announced, whole and unchanged, and the time, and nothing else. A duration is announced in whole
/// milliseconds, and a number that is not known as null. Other events are not announced.
pub proof fn law_announcements_are_exact<D>(
    event: &ObserverEvent<D>,
    timestamp: &str,
    value: Option<Value>,
)
    requires
        call_ensures(announce::<D>, (event, timestamp), value),
    ensures
        value is None <==> event is Other,
        match event {
            ObserverEvent::LlmRequest { provider, model, .. } => {
                value is Some && json_of(value->0) == Json::Object(
                    map![
                        "type"@ => Json::Text("llm_request"@),
                        "provider"@ => Json::Text(provider@),
                        "model"@ => Json::Text(model@),
                        "timestamp"@ => Json::Text(timestamp@),
                    ],
                )
            },
            ObserverEvent::ToolCall { tool, duration, success } => {
                value is Some && json_of(value->0) == Json::Object(
                    map![
                        "type"@ => Json::Text("tool_call"@),
                        "tool"@ => Json::Text(tool@),
                        "duration_ms"@ => Json::Natural((duration.secs * 1000 + duration.nanos as int / 1_000_000) as u64),
                        "success"@ => Json::Bool(*success),
                        "timestamp"@ => Json::Text(timestamp@),
                    ],
                )
            },
            ObserverEvent::ToolCallStart { tool } => {
                value is Some && json_of(value->0) == Json::Object(
                    map![
                        "type"@ => Json::Text("tool_call_start"@),
                        "tool"@ => Json::Text(tool@),
                        "timestamp"@ => Json::Text(timestamp@),
                    ],
                )
            },
            ObserverEvent::Error { component, message } => {
                value is Some && json_of(value->0) == Json::Object(
                    map![
                        "type"@ => Json::Text("error"@),
                        "component"@ => Json::Text(component@),
                        "message"@ => Json::Text(message@),
                        "timestamp"@ => Json::Text(timestamp@),
                    ],
                )
            },
            ObserverEvent::AgentStart { provider, model } => {
                value is Some && json_of(value->0) == Json::Object(
                    map![
                        "type"@ => Json::Text("agent_start"@),
                        "provider"@ => Json::Text(provider@),
                        "model"@ => Json::Text(model@),
                        "timestamp"@ => Json::Text(timestamp@),
                    ],
                )
            },
            ObserverEvent::AgentEnd { provider, model, duration, tokens_used, cost_usd } => {
                value is Some && json_of(value->0) == Json::Object(
                    map![
                        "type"@ => Json::Text("agent_end"@),
                        "provider"@ => Json::Text(provider@),
                        "model"@ => Json::Text(model@),
                        "duration_ms"@ => Json::Natural((duration.secs * 1000 + duration.nanos as int / 1_000_000) as u64),
                        "tokens_used"@ => match tokens_used {
                            Some(n) => Json::Natural(*n),
                            None => Json::Null,
                        },
                        "cost_usd"@ => json_of(*cost_usd),
                        "timestamp"@ => Json::Text(timestamp@),
                    ],
                )
            },
            ObserverEvent::Other(_) => value is None,
        },
{
}

/// Every announcement says what its event says: under each key stands the field of the event that the
/// key names.
pub proof fn law_announcements_say_what_events_say<D>(
    event: &ObserverEvent<D>,
    timestamp: &str,
    value: Value,
    members: Map<Seq<char>, Json>,
)
    requires
        call_ensures(announce::<D>, (event, timestamp), Some(value)),
        json_of(value) == Json::Object(members),
    ensures
        match event {
            ObserverEvent::LlmRequest { provider, model, .. } => {
                &&& members["type"@] == Json::Text("llm_request"@)
                &&& members["provider"@] == Json::Text(provider@)
                &&& members["model"@] == Json::Text(model@)
                &&& members["timestamp"@] == Json::Text(timestamp@)
            },
            ObserverEvent::ToolCall { tool, duration, success } => {
                &&& members["type"@] == Json::Text("tool_call"@)
                &&& members["tool"@] == Json::Text(tool@)
                &&& members["duration_ms"@] == Json::Natural((duration.secs * 1000 + duration.nanos as int / 1_000_000) as u64)
                &&& members["success"@] == Json::Bool(*success)
                &&& members["timestamp"@] == Json::Text(timestamp@)
            },
            ObserverEvent::ToolCallStart { tool } => {
                &&& members["type"@] == Json::Text("tool_call_start"@)
                &&& members["tool"@] == Json::Text(tool@)
                &&& members["timestamp"@] == Json::Text(timestamp@)
            },
            ObserverEvent::Error { component, message } => {
                &&& members["type"@] == Json::Text("error"@)
                &&& members["component"@] == Json::Text(component@)
                &&& members["message"@] == Json::Text(message@)
                &&& members["timestamp"@] == Json::Text(timestamp@)
            },
            ObserverEvent::AgentStart { provider, model } => {
                &&& members["type"@] == Json::Text("agent_start"@)
                &&& members["provider"@] == Json::Text(provider@)
                &&& members["model"@] == Json::Text(model@)
                &&& members["timestamp"@] == Json::Text(timestamp@)
            },
            ObserverEvent::AgentEnd { provider, model, duration, tokens_used, cost_usd } => {
                &&& members["type"@] == Json::Text("agent_end"@)
                &&& members["provider"@] == Json::Text(provider@)
                &&& members["model"@] == Json::Text(model@)
                &&& members["duration_ms"@] == Json::Natural((duration.secs * 1000 + duration.nanos as int / 1_000_000) as u64)
                &&& members["tokens_used"@] == match tokens_used {
                        Some(n) => Json::Natural(*n),
                        None => Json::Null,
                    }
                &&& members["cost_usd"@] == json_of(*cost_usd)
                &&& members["timestamp"@] == Json::Text(timestamp@)
            },
            ObserverEvent::Other(_) => true,
        },
{
    lemma_fields();
    lemma_fields_are_distinct();
}

/// No two fields of one announcement have the same key.
proof fn lemma_fields_are_distinct()
    ensures
        "provider"@ != "model"@,
        "provider"@ != "duration_ms"@,
        "provider"@ != "tokens_used"@,
        "provider"@ != "cost_usd"@,
        "model"@ != "duration_ms"@,
        "model"@ != "tokens_used"@,
        "model"@ != "cost_usd"@,
        "duration_ms"@ != "tokens_used"@,
        "duration_ms"@ != "cost_usd"@,
        "tokens_used"@ != "cost_usd"@,
        "tool"@ != "duration_ms"@,
        "tool"@ != "success"@,
        "duration_ms"@ != "success"@,
        "component"@ != "message"@,
{
    reveal_strlit("provider");
    reveal_strlit("model");
    reveal_strlit("tool");
    reveal_strlit("duration_ms");
    reveal_strlit("success");
    reveal_strlit("component");
    reveal_strlit("message");
    reveal_strlit("tokens_used");
    reveal_strlit("cost_usd");
    assert("provider"@[0] == 'p' && "model"@[0] == 'm' && "duration_ms"@[0] == 'd');
    assert("success"@[0] == 's' && "component"@[0] == 'c' && "message"@[0] == 'm');
    assert("tool"@[0] == 't' && "tokens_used"@[0] == 't' && "cost_usd"@[0] == 'c');
}

/// Two calls that announce one event at one time announce the same, and calls that announce tool calls
/// of other success, another tool or another number of milliseconds announce something else.
pub proof fn law_announcements_tell_tool_calls_apart<D>(
    tool: String,
    duration: Elapsed,
    success: bool,
    other_tool: String,
    other_duration: Elapsed,
    other_success: bool,
    timestamp: &str,
    value: Value,
    other_value: Value,
)
    requires
        call_ensures(
            announce::<D>,
            (&ObserverEvent::ToolCall { tool, duration, success }, timestamp),
            Some(value),
        ),
        call_ensures(
            announce::<D>,
            (
                &ObserverEvent::ToolCall {
                    tool: other_tool,
                    duration: other_duration,
                    success: other_success,
                },
                timestamp,
            ),
            Some(other_value),
        ),
        duration.secs * 1000 + duration.nanos as int / 1_000_000 <= u64::MAX,
        other_duration.secs * 1000 + other_duration.nanos as int / 1_000_000 <= u64::MAX,
    ensures
        json_of(value) == json_of(other_value) <==> {
            &&& tool@ == other_tool@
            &&& success == other_success
            &&& duration.secs * 1000 + duration.nanos as int / 1_000_000 == other_duration.secs
                * 1000 + other_duration.nanos as int / 1_000_000
        },
{
    let event: ObserverEvent<D> = ObserverEvent::ToolCall { tool, duration, success };
    let other: ObserverEvent<D> = ObserverEvent::ToolCall {
        tool: other_tool,
        duration: other_duration,
        success: other_success,
    };
    law_announcements_say_what_events_say(&event, timestamp, value, json_of(value)->Object_0);
    law_announcements_say_what_events_say(
        &other,
        timestamp,
        other_value,
        json_of(other_value)->Object_0,
    );
}

/// A span has as many whole milliseconds as its seconds and its nanoseconds make.
pub proof fn law_milliseconds(span: &Elapsed, millis: u128)
    requires
        call_ensures(Elapsed::as_millis, (span,), millis),
    ensures
        millis == span.secs * 1000 + span.nanos as int / 1_000_000,
{
}

/// Every event can be announced but for one that took more milliseconds than 64 bits can count.
pub proof fn law_which_events_can_be_announced<D>(event: ObserverEvent<D>)
    ensures
        match event {
            ObserverEvent::ToolCall { duration, .. } => event.in_range() <==> duration.secs * 1000
                + duration.nanos as int / 1_000_000 <= u64::MAX,
            ObserverEvent::AgentEnd { duration, .. } => event.in_range() <==> duration.secs * 1000
                + duration.nanos as int / 1_000_000 <= u64::MAX,
            _ => event.in_range(),
        },
{
}

/// An observer that announces events can be told of every event that can be announced and that the
/// inner observer can be told of.
pub proof fn law_which_events_are_accepted<O: Observer>(
    observer: BroadcastObserver<O>,
    event: ObserverEvent<O::Detail>,
)
    ensures
        observer.accepts(&event) <==> observer.inner().accepts(&event) && event.in_range(),
{
}

/// What is said of an observer that announces events is said of its channel and its inner observer.
proof fn law_observers_are_their_channel<O>(observer: BroadcastObserver<O>, rx: Receiver<Value>)
    ensures
        observer.inner() == observer.inner,
        observer.announced() == offered(observer.tx),
        observer.reaches(rx) == feeds(observer.tx, rx),
        observer.heard_by(rx) == hears(observer.tx, rx),
        observer.due(rx) == due(observer.tx, rx),
{
}

/// To record an event is to announce it once at some time: what is announced, and what is due to each
/// receiver, grows by exactly what `announce` gives for the event at that time, and by nothing for an
/// event that is not announced. The time is a date and a time in UTC.
pub proof fn law_recording_announces_once<O: Observer>(
    observer: &mut BroadcastObserver<O>,
    event: &ObserverEvent<O::Detail>,
    rx: Receiver<Value>,
)
    requires
        call_ensures(
            <BroadcastObserver<O> as Observer>::record_event,
            (observer, event),
            (),
        ),
        old(observer).heard_by(rx),
    ensures
        final(observer).heard_by(rx),
        final(observer).reaches(rx) == old(observer).reaches(rx),
        event is Other ==> {
            &&& final(observer).announced() == old(observer).announced()
            &&& final(observer).due(rx) == old(observer).due(rx)
        },
        !(event is Other) ==> exists|timestamp: Seq<char>|
            #![trigger event.announcement(timestamp)]
            {
                &&& is_utc_time(timestamp)
                &&& event.announcement(timestamp) matches Some(json)
                &&& final(observer).announced() == old(observer).announced().push(json)
                &&& final(observer).due(rx) == old(observer).due(rx).push(json)
            },
{
}

/// To record a measurement, or to write out what is held back, announces nothing.
pub proof fn law_measurements_are_not_announced<O: Observer>(
    observer: &mut BroadcastObserver<O>,
    metric: &O::Metric,
    rx: Receiver<Value>,
)
    requires
        call_ensures(<BroadcastObserver<O> as Observer>::record_metric, (observer, metric), ())
            || call_ensures(<BroadcastObserver<O> as Observer>::flush, (observer,), ()),
    ensures
        final(observer).announced() == old(observer).announced(),
        final(observer).reaches(rx) == old(observer).reaches(rx),
        old(observer).heard_by(rx) ==> final(observer).heard_by(rx) && final(observer).due(rx)
            == old(observer).due(rx),
{
}

/// An observer passes everything on to the given one and announces events through the given handle.
pub proof fn law_new_observers_announce_through_the_handle<O>(
    inner: O,
    tx: Sender<Value>,
    observer: BroadcastObserver<O>,
    rx: Receiver<Value>,
)
    requires
        call_ensures(BroadcastObserver::<O>::new, (inner, tx), observer),
    ensures
        observer.inner() == inner,
        observer.announced() == offered(tx),
        observer.reaches(rx) == feeds(tx, rx),
        observer.heard_by(rx) <==> feeds(tx, rx) && starts_at(tx, rx) <= offered(tx).len(),
        observer.due(rx) == offered(tx).skip(starts_at(tx, rx) as int),
{
    assert(observer.heard_by(rx) == hears(tx, rx));
    assert(observer.due(rx) == due(tx, rx));
}

/// What is announced of an event at a time is what `announce` gives for it.
pub proof fn law_announcements_are_what_is_announced<D>(
    event: &ObserverEvent<D>,
    timestamp: &str,
    value: Option<Value>,
)
    requires
        call_ensures(announce::<D>, (event, timestamp), value),
    ensures
        value matches Some(v) ==> event.announcement(timestamp@) == Some(json_of(v)),
        value is None ==> event.announcement(timestamp@) is None,
{
}

} // verus!
