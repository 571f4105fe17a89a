//! The broadcast channel that events are delivered through.
//!
//! The channel is that of `tokio`. Of a sending handle, [`offered`] names what has been handed to
//! it, [`capacity`] what it was made to hold, [`feeds`] the receivers that it reaches, and
//! [`starts_at`] from where on.
use crate::json::{json_of, Json};
use serde_json::Value;
use tokio::sync::broadcast::{Receiver, Sender};
use vstd::prelude::*;

verus! {

/// `tokio::sync::broadcast::Sender`, a handle to send through.
#[verifier::external_type_specification]
#[verifier::external_body]
#[verifier::reject_recursive_types(T)]
pub struct ExSender<T>(tokio::sync::broadcast::Sender<T>);

/// `tokio::sync::broadcast::Receiver`, a handle to receive through.
#[verifier::external_type_specification]
#[verifier::external_body]
#[verifier::reject_recursive_types(T)]
pub struct ExReceiver<T>(tokio::sync::broadcast::Receiver<T>);

/// What has been handed to the channel through this handle, oldest first.
pub uninterp spec fn offered(tx: Sender<Value>) -> Seq<Json>;

/// The number of values that the channel was asked to retain.
pub uninterp spec fn capacity(tx: Sender<Value>) -> nat;

/// Whether what is sent through this handle reaches this receiver.
pub uninterp spec fn feeds(tx: Sender<Value>, rx: Receiver<Value>) -> bool;

/// How much had been handed to the channel through this handle when this receiver was made.
pub uninterp spec fn starts_at(tx: Sender<Value>, rx: Receiver<Value>) -> nat;

/// Whether a receiver has been made that gets what is sent through this handle.
pub open spec fn hears(tx: Sender<Value>, rx: Receiver<Value>) -> bool {
    feeds(tx, rx) && starts_at(tx, rx) <= offered(tx).len()
}

/// What a receiver is due through this handle: what has been handed to the channel since the
/// receiver was made, oldest first. It gets all of that, in this order, as long as it does not fall
/// behind by more than the channel retains.
pub open spec fn due(tx: Sender<Value>, rx: Receiver<Value>) -> Seq<Json> {
    offered(tx).skip(starts_at(tx, rx) as int)
}

/// Whether a handle is what becomes of another one by sending a value through it.
pub open spec fn handed(before: Sender<Value>, json: Json, after: Sender<Value>) -> bool {
    &&& offered(after) == offered(before).push(json)
    &&& capacity(after) == capacity(before)
    &&& forall|rx: Receiver<Value>| #[trigger] feeds(after, rx) == feeds(before, rx)
    &&& forall|rx: Receiver<Value>| #[trigger] starts_at(after, rx) == starts_at(before, rx)
}

/// `broadcast::channel`, of which the sending half is kept. Claims that the channel is asked to
/// retain `size` values and that none has been sent. The call panics outside the sizes required.
#[verifier::external_body]
pub(crate) fn new_channel(size: usize) -> (tx: Sender<Value>)
    requires
        0 < size <= usize::MAX / 2,
    ensures
        offered(tx) == Seq::<Json>::empty(),
        capacity(tx) == size,
{
    tokio::sync::broadcast::channel(size).0
}

/// `Sender::send`, whose result is dropped. Claims that the value has been handed to the channel
/// behind those before it, and that the handle is still one of the same channel, with the same
/// receivers. Whether any receiver is there to get the value depends on who else holds one, so
/// nothing is claimed of that.
#[verifier::external_body]
pub(crate) fn send(tx: &mut Sender<Value>, value: Value)
    ensures
        handed(*old(tx), json_of(value), *final(tx)),
{
    let _ = tx.send(value);
}

/// `Sender::subscribe`. Claims that the new receiver is one of this channel, and starts behind all
/// that has been sent through the handle so far. The call panics only if a quarter of `usize::MAX`
/// receivers are alive, which are more than an address space holds.
#[verifier::external_body]
pub(crate) fn new_receiver(tx: &Sender<Value>) -> (rx: Receiver<Value>)
    ensures
        feeds(*tx, rx),
        starts_at(*tx, rx) == offered(*tx).len(),
{
    tx.subscribe()
}

/// A value that is sent is due, behind what was due before, to every receiver there is.
pub proof fn lemma_handed_is_due(
    before: Sender<Value>,
    json: Json,
    after: Sender<Value>,
    rx: Receiver<Value>,
)
    requires
        handed(before, json, after),
        hears(before, rx),
    ensures
        hears(after, rx),
        due(after, rx) == due(before, rx).push(json),
{
    assert(feeds(after, rx) == feeds(before, rx));
    assert(starts_at(after, rx) == starts_at(before, rx));
    assert(due(after, rx) =~= due(before, rx).push(json));
}

/// A receiver is due exactly what is sent after it was made, in order and each value once: where
/// values are sent one after the other through a handle, each of them is due to a receiver of that
/// time, behind what was due to it before.
pub proof fn law_receivers_are_due_what_is_sent(
    handles: Seq<Sender<Value>>,
    values: Seq<Json>,
    rx: Receiver<Value>,
)
    requires
        handles.len() == values.len() + 1,
        forall|i: int|
            0 <= i < values.len() ==> #[trigger] handed(handles[i], values[i], handles[i + 1]),
        hears(handles[0], rx),
    ensures
        hears(handles.last(), rx),
        due(handles.last(), rx) == due(handles[0], rx) + values,
    decreases values.len(),
{
    if values.len() == 0 {
        assert(due(handles[0], rx) + values =~= due(handles[0], rx));
    } else {
        let n = values.len() - 1;
        let shorter = handles.drop_last();
        let fewer = values.drop_last();
        assert forall|i: int| 0 <= i < fewer.len() implies #[trigger] handed(
            shorter[i],
            fewer[i],
            shorter[i + 1],
        ) by {
            assert(handed(handles[i], values[i], handles[i + 1]));
        }
        law_receivers_are_due_what_is_sent(shorter, fewer, rx);
        assert(handed(handles[n], values[n], handles[n + 1]));
        lemma_handed_is_due(handles[n], values[n], handles[n + 1], rx);
        assert(due(handles[0], rx) + values =~= (due(handles[0], rx) + fewer).push(values[n]));
    }
}

/// Sending a value adds it behind all that was handed to the channel before, whole and once; the
/// receivers of the channel, where they start and what the channel retains stay as they are.
pub proof fn law_sending_adds_the_value(
    before: Sender<Value>,
    json: Json,
    after: Sender<Value>,
    rx: Receiver<Value>,
)
    requires
        handed(before, json, after),
    ensures
        offered(after) == offered(before).push(json),
        capacity(after) == capacity(before),
        feeds(after, rx) == feeds(before, rx),
        starts_at(after, rx) == starts_at(before, rx),
{
    assert(feeds(after, rx) == feeds(before, rx));
    assert(starts_at(after, rx) == starts_at(before, rx));
}

/// What a receiver is due is all that was handed to the channel since it was made, in the same order.
pub proof fn law_due_is_what_was_handed_since(tx: Sender<Value>, rx: Receiver<Value>)
    requires
        feeds(tx, rx),
        starts_at(tx, rx) <= offered(tx).len(),
    ensures
        hears(tx, rx),
        due(tx, rx).len() == offered(tx).len() - starts_at(tx, rx),
        forall|i: int|
            0 <= i < due(tx, rx).len() ==> #[trigger] due(tx, rx)[i] == offered(tx)[i + starts_at(
                tx,
                rx,
            )],
{
}

} // verus!
