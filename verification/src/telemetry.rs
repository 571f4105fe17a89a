//! The telemetry stream, which serves a limited number of subscribers.
//!
//! A server counts whom it serves: [`TelemetryServer::subscribe`] takes a place and
//! [`TelemetryServer::unsubscribe`] gives it back. The methods take the server by `&mut`, so that
//! the count is tested and changed in one step: a server that several threads use stands behind a
//! lock.
use crate::channel::{
    capacity, due, feeds, hears, lemma_handed_is_due, new_channel, new_receiver, offered, send,
};
use crate::json::{json_of, Json};
use serde_json::Value;
use tokio::sync::broadcast::{Receiver, Sender};
use vstd::prelude::*;

verus! {

/// The most subscribers that are served at a time.
pub const MAX_TELEMETRY_SUBSCRIBERS: usize = 20;

/// The number of values that the channel retains for slow subscribers.
pub const TELEMETRY_CAPACITY: usize = 100;

/// Why a subscription is refused.
#[derive(Clone, Copy, Debug, PartialEq, Eq, Structural)]
pub enum TelemetryError {
    /// [`MAX_TELEMETRY_SUBSCRIBERS`] subscribers are being served.
    LimitReached,
}

impl TelemetryError {
    /// What the error says.
    pub open spec fn text(self) -> Seq<char> {
        "Maximum telemetry subscribers reached (20)"@
    }

    /// What the error says.
    pub fn message(&self) -> (message: String)
        ensures
            message@ == self.text(),
    {
        "Maximum telemetry subscribers reached (20)".to_owned()
    }
}

/// The number of subscribers after a subscription has been asked for.
pub open spec fn after_subscribe(active: nat) -> nat {
    if active < MAX_TELEMETRY_SUBSCRIBERS {
        active + 1
    } else {
        active
    }
}

/// The number of subscribers after one has left. The counter wraps around where none was there.
pub open spec fn after_unsubscribe(active: nat) -> nat {
    if active == 0 {
        usize::MAX as nat
    } else {
        (active - 1) as nat
    }
}

/// Distributes telemetry to its subscribers.
pub struct TelemetryServer {
    tx: Sender<Value>,
    active_subscribers: usize,
}

impl TelemetryServer {
    /// How many subscribers are being served.
    pub closed spec fn active(&self) -> nat {
        self.active_subscribers as nat
    }

    /// What has been broadcast, oldest first.
    pub closed spec fn sent(&self) -> Seq<Json> {
        offered(self.tx)
    }

    /// The number of values that are retained for slow subscribers.
    pub closed spec fn retained(&self) -> nat {
        capacity(self.tx)
    }

    /// Whether a receiver gets what this server broadcasts.
    pub closed spec fn serves(&self, rx: Receiver<Value>) -> bool {
        feeds(self.tx, rx)
    }

    /// Whether a receiver has been made that gets what this server broadcasts.
    pub closed spec fn heard_by(&self, rx: Receiver<Value>) -> bool {
        hears(self.tx, rx)
    }

    /// What has been broadcast since a receiver was made, oldest first.
    pub closed spec fn due(&self, rx: Receiver<Value>) -> Seq<Json> {
        due(self.tx, rx)
    }

    /// A server without subscribers.
    pub fn new() -> (server: Self)
        ensures
            server.active() == 0,
            server.sent() == Seq::<Json>::empty(),
            server.retained() == TELEMETRY_CAPACITY,
    {
        TelemetryServer { tx: new_channel(TELEMETRY_CAPACITY), active_subscribers: 0 }
    }

    /// Broadcasts a value if there is anyone to get it.
    pub fn broadcast(&mut self, value: Value)
        ensures
            broadcasts(*old(self), json_of(value), *final(self)),
    {
        if self.active_subscribers > 0 {
            let ghost before = self.tx;
            let ghost json = json_of(value);
            send(&mut self.tx, value);
            proof {
                assert forall|rx: Receiver<Value>| hears(before, rx) implies hears(self.tx, rx)
                    && due(self.tx, rx) == due(before, rx).push(json) by {
                    lemma_handed_is_due(before, json, self.tx, rx);
                }
            }
        }
    }

    /// Subscribes to the stream if the limit has not been reached.
    pub fn subscribe(&mut self) -> (receiver: Result<Receiver<Value>, TelemetryError>)
        ensures
            receiver is Ok <==> old(self).active() < MAX_TELEMETRY_SUBSCRIBERS,
            receiver matches Ok(rx) ==> {
                &&& final(self).serves(rx)
                &&& final(self).heard_by(rx)
                &&& final(self).due(rx) == Seq::<Json>::empty()
            },
            receiver matches Err(e) ==> e == TelemetryError::LimitReached,
            final(self).active() == after_subscribe(old(self).active()),
            broadcasts_nothing(*old(self), *final(self)),
    {
        if self.active_subscribers >= MAX_TELEMETRY_SUBSCRIBERS {
            return Err(TelemetryError::LimitReached);
        }
        self.active_subscribers = self.active_subscribers + 1;
        let rx = new_receiver(&self.tx);
        assert(due(self.tx, rx) =~= Seq::<Json>::empty());
        Ok(rx)
    }

    /// Takes note that a subscriber has left.
    pub fn unsubscribe(&mut self)
        ensures
            final(self).active() == after_unsubscribe(old(self).active()),
            broadcasts_nothing(*old(self), *final(self)),
    {
        self.active_subscribers = self.active_subscribers.wrapping_sub(1);
    }
}

/// Whether a server is what becomes of another one by broadcasting a value: if anyone is being
/// served, the value is sent and due to every receiver, and nothing else changes.
pub open spec fn broadcasts(before: TelemetryServer, json: Json, after: TelemetryServer) -> bool {
    &&& after.sent() == if before.active() > 0 {
        before.sent().push(json)
    } else {
        before.sent()
    }
    &&& after.active() == before.active()
    &&& after.retained() == before.retained()
    &&& forall|rx: Receiver<Value>| after.serves(rx) == before.serves(rx)
    &&& forall|rx: Receiver<Value>| #[trigger]
        before.heard_by(rx) ==> after.heard_by(rx) && after.due(rx) == if before.active() > 0 {
            before.due(rx).push(json)
        } else {
            before.due(rx)
        }
}

/// Whether a server has the channel of another one, and nothing was sent.
pub open spec fn broadcasts_nothing(before: TelemetryServer, after: TelemetryServer) -> bool {
    &&& after.sent() == before.sent()
    &&& after.retained() == before.retained()
    &&& forall|rx: Receiver<Value>| after.serves(rx) == before.serves(rx)
    &&& forall|rx: Receiver<Value>| #[trigger]
        before.heard_by(rx) ==> after.heard_by(rx) && after.due(rx) == before.due(rx)
}

/// Broadcasts a snapshot of the system's health.
pub fn broadcast_health(server: &mut TelemetryServer, snapshot: Value)
    ensures
        broadcasts(*old(server), json_of(snapshot), *final(server)),
{
    server.broadcast(snapshot);
}

/// A subscriber is due exactly what is broadcast while it is subscribed, in order and each value
/// once: where values are broadcast one after the other and someone is being served, each of them is
/// due to every receiver of that time, behind what was due to it before. How many are being served
/// does not change.
pub proof fn law_subscribers_are_due_what_is_broadcast(
    servers: Seq<TelemetryServer>,
    values: Seq<Json>,
    rx: Receiver<Value>,
)
    requires
        servers.len() == values.len() + 1,
        forall|i: int|
            0 <= i < values.len() ==> #[trigger] broadcasts(servers[i], values[i], servers[i + 1]),
        servers[0].heard_by(rx),
        servers[0].active() > 0,
    ensures
        servers.last().heard_by(rx),
        servers.last().due(rx) == servers[0].due(rx) + values,
        servers.last().active() == servers[0].active(),
    decreases values.len(),
{
    if values.len() == 0 {
        assert(servers[0].due(rx) + values =~= servers[0].due(rx));
    } else {
        let n = values.len() - 1;
        let shorter = servers.drop_last();
        let fewer = values.drop_last();
        assert forall|i: int| 0 <= i < fewer.len() implies #[trigger] broadcasts(
            shorter[i],
            fewer[i],
            shorter[i + 1],
        ) by {
            assert(broadcasts(servers[i], values[i], servers[i + 1]));
        }
        law_subscribers_are_due_what_is_broadcast(shorter, fewer, rx);
        assert(broadcasts(servers[n], values[n], servers[n + 1]));
        assert(servers[0].due(rx) + values =~= (servers[0].due(rx) + fewer).push(values[n]));
    }
}

// ---------------------------------------------------------------------------------------------
// The limit
// ---------------------------------------------------------------------------------------------

/// What happens to a server's subscriber count.
pub enum Visit {
    /// A subscription is asked for.
    Subscribe,
    /// A subscriber leaves.
    Unsubscribe,
}

/// The subscriber count of a new server after these visits.
pub open spec fn active_after(visits: Seq<Visit>) -> nat
    decreases visits.len(),
{
    if visits.len() == 0 {
        0
    } else {
        let before = active_after(visits.drop_last());
        match visits.last() {
            Visit::Subscribe => after_subscribe(before),
            Visit::Unsubscribe => after_unsubscribe(before),
        }
    }
}

/// How many of the subscriptions asked for were granted.
pub open spec fn granted(visits: Seq<Visit>) -> nat
    decreases visits.len(),
{
    if visits.len() == 0 {
        0
    } else {
        let before = granted(visits.drop_last());
        if visits.last() is Subscribe && active_after(visits.drop_last())
            < MAX_TELEMETRY_SUBSCRIBERS {
            before + 1
        } else {
            before
        }
    }
}

/// How many subscribers left.
pub open spec fn left(visits: Seq<Visit>) -> nat
    decreases visits.len(),
{
    if visits.len() == 0 {
        0
    } else {
        left(visits.drop_last()) + if visits.last() is Unsubscribe {
            1nat
        } else {
            0nat
        }
    }
}

/// Nobody leaves who was not let in: at no time have more left than were granted a subscription.
pub open spec fn orderly(visits: Seq<Visit>) -> bool {
    forall|n: int|
        0 <= n <= visits.len() ==> left(#[trigger] visits.take(n)) <= granted(visits.take(n))
}

/// Where nobody leaves who was not let in, the count is that of the subscribers who were let in and
/// have not left, and never exceeds the limit.
pub proof fn law_never_over_the_limit(visits: Seq<Visit>)
    requires
        orderly(visits),
    ensures
        active_after(visits) == granted(visits) - left(visits),
        active_after(visits) <= MAX_TELEMETRY_SUBSCRIBERS,
    decreases visits.len(),
{
    assert(visits.take(visits.len() as int) =~= visits);
    if visits.len() > 0 {
        let before = visits.drop_last();
        assert forall|n: int| 0 <= n <= before.len() implies left(#[trigger] before.take(n))
            <= granted(before.take(n)) by {
            assert(before.take(n) =~= visits.take(n));
        }
        law_never_over_the_limit(before);
    }
}

/// A subscriber who is let in and leaves again frees the place taken.
pub proof fn law_leaving_frees_the_place(active: nat)
    requires
        active < MAX_TELEMETRY_SUBSCRIBERS,
    ensures
        after_unsubscribe(after_subscribe(active)) == active,
{
}

/// At the limit a subscription changes nothing, and one is granted again as soon as anyone leaves.
pub proof fn law_full_until_someone_leaves(active: nat)
    requires
        active == MAX_TELEMETRY_SUBSCRIBERS,
    ensures
        after_subscribe(active) == active,
        after_unsubscribe(active) < MAX_TELEMETRY_SUBSCRIBERS,
        after_subscribe(after_unsubscribe(active)) == active,
{
}

// ---------------------------------------------------------------------------------------------
// What calls give
// ---------------------------------------------------------------------------------------------

/// What is said of a server is said of its channel and its counter.
proof fn law_servers_are_their_channel_and_counter(server: TelemetryServer, rx: Receiver<Value>)
    ensures
        server.active() == server.active_subscribers,
        server.sent() == offered(server.tx),
        server.retained() == capacity(server.tx),
        server.serves(rx) == feeds(server.tx, rx),
        server.heard_by(rx) == hears(server.tx, rx),
        server.due(rx) == due(server.tx, rx),
{
}

/// A new server serves nobody, has broadcast nothing and retains 100 values.
pub proof fn law_new_servers_serve_nobody(server: TelemetryServer)
    requires
        call_ensures(TelemetryServer::new, (), server),
    ensures
        server.active() == 0,
        server.sent().len() == 0,
        server.retained() == 100,
{
}

/// A subscription is granted exactly while fewer than 20 subscribers are being served. One that is
/// granted takes a place, and its receiver is due nothing yet; one that is refused changes nothing.
/// What has been broadcast, and what is due to others, stays as it is.
pub proof fn law_subscriptions_are_limited_to_20(
    server: &mut TelemetryServer,
    receiver: Result<Receiver<Value>, TelemetryError>,
    other: Receiver<Value>,
)
    requires
        call_ensures(TelemetryServer::subscribe, (server,), receiver),
    ensures
        receiver is Ok <==> old(server).active() < 20,
        receiver is Ok ==> final(server).active() == old(server).active() + 1,
        receiver is Err ==> final(server).active() == old(server).active(),
        receiver matches Ok(rx) ==> {
            &&& final(server).serves(rx)
            &&& final(server).heard_by(rx)
            &&& final(server).due(rx).len() == 0
        },
        final(server).sent() == old(server).sent(),
        final(server).retained() == old(server).retained(),
        final(server).serves(other) == old(server).serves(other),
        old(server).heard_by(other) ==> final(server).heard_by(other) && final(server).due(other)
            == old(server).due(other),
{
}

/// A subscriber who leaves gives one place back, and nothing else changes. Where none is being served
/// the counter wraps around.
pub proof fn law_leaving_gives_one_place_back(server: &mut TelemetryServer, other: Receiver<Value>)
    requires
        call_ensures(TelemetryServer::unsubscribe, (server,), ()),
    ensures
        old(server).active() > 0 ==> final(server).active() == old(server).active() - 1,
        old(server).active() == 0 ==> final(server).active() == usize::MAX,
        final(server).sent() == old(server).sent(),
        final(server).retained() == old(server).retained(),
        final(server).serves(other) == old(server).serves(other),
        old(server).heard_by(other) ==> final(server).heard_by(other) && final(server).due(other)
            == old(server).due(other),
{
}

/// A value that is broadcast while anyone is being served is sent whole and once, and is due to every
/// receiver behind what was due to it before; while nobody is being served nothing is sent. How many
/// are being served does not change.
pub proof fn law_broadcasts_reach_every_receiver(
    server: &mut TelemetryServer,
    value: Value,
    rx: Receiver<Value>,
)
    requires
        call_ensures(TelemetryServer::broadcast, (server, value), ()),
    ensures
        old(server).active() > 0 ==> final(server).sent() == old(server).sent().push(
            json_of(value),
        ),
        old(server).active() == 0 ==> final(server).sent() == old(server).sent(),
        old(server).heard_by(rx) ==> final(server).heard_by(rx),
        old(server).heard_by(rx) && old(server).active() > 0 ==> final(server).due(rx) == old(
            server,
        ).due(rx).push(json_of(value)),
        old(server).heard_by(rx) && old(server).active() == 0 ==> final(server).due(rx) == old(
            server,
        ).due(rx),
        final(server).active() == old(server).active(),
        final(server).retained() == old(server).retained(),
        final(server).serves(rx) == old(server).serves(rx),
{
}

/// A snapshot of the system's health is broadcast as any value is.
pub proof fn law_health_is_broadcast(
    server: &mut TelemetryServer,
    snapshot: Value,
    rx: Receiver<Value>,
)
    requires
        call_ensures(broadcast_health, (server, snapshot), ()),
    ensures
        old(server).active() > 0 ==> final(server).sent() == old(server).sent().push(
            json_of(snapshot),
        ),
        old(server).active() == 0 ==> final(server).sent() == old(server).sent(),
        old(server).heard_by(rx) && old(server).active() > 0 ==> final(server).due(rx) == old(
            server,
        ).due(rx).push(json_of(snapshot)),
        final(server).active() == old(server).active(),
{
}

/// The error says what the limit is.
pub proof fn law_the_error_says_the_limit(error: &TelemetryError, message: String)
    requires
        call_ensures(TelemetryError::message, (error,), message),
    ensures
        message@ == "Maximum telemetry subscribers reached (20)"@,
{
}

} // verus!
