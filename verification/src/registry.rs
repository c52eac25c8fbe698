//! The broadcast registry: the subscribers of one driver, each with the
//! sending end of its channel, and the fan-out of one result to all of them.

use crate::body::Body;
use crate::error::{result_view, ClipboardResult};
use futures::channel::mpsc::Sender;
use std::sync::Arc;
use vstd::prelude::*;

verus! {

/// The sending end of a bounded channel of the `futures` crate. Nothing of
/// its inside is visible here.
#[verifier::external_type_specification]
#[verifier::external_body]
#[verifier::reject_recursive_types(T)]
pub struct ExSender<T>(Sender<T>);

/// The identity of one subscriber: unique in the process, used as a key only.
#[derive(Debug, Clone, Copy, PartialEq, Eq, Hash)]
pub struct StreamId(pub u64);

/// How one attempt to send went.
#[derive(Debug, Clone, Copy, PartialEq, Eq)]
pub enum SendOutcome {
    /// The message is in the channel.
    Delivered,
    /// The channel had no room; the message was dropped.
    Full,
    /// The receiving end is gone; the message was dropped.
    Disconnected,
}

/// The outcome of the attempt for one subscriber.
#[derive(Debug, Clone, Copy, PartialEq, Eq)]
pub struct Delivery {
    pub id: StreamId,
    pub outcome: SendOutcome,
}

/// One registration.
pub struct Subscriber {
    pub id: StreamId,
    pub sender: Sender<ClipboardResult>,
}

/// Calls `Arc::clone`, which makes another pointer to the same allocation:
/// the body behind the new handle is the body behind the old one.
#[verifier::external_body]
fn share_body(body: &Arc<Body>) -> (shared: Arc<Body>)
    ensures
        shared == *body,
{
    Arc::clone(body)
}

/// A copy of a result for one more subscriber: the body is shared, an error
/// is copied.
pub fn share(result: &ClipboardResult) -> (copy: ClipboardResult)
    ensures
        result_view(copy) == result_view(*result),
{
    match result {
        Ok(body) => Ok(share_body(body)),
        Err(error) => Err(error.duplicate()),
    }
}

/// Calls `Sender::try_send` of `futures::channel::mpsc`, which never blocks,
/// and tells its two errors apart with `TrySendError::is_full`. Whether the
/// message is taken depends on what the receiving side has done so far, so
/// nothing is promised of the outcome. A failed attempt drops the message.
#[verifier::external_body]
fn try_send(sender: &mut Sender<ClipboardResult>, message: ClipboardResult) -> (outcome:
    SendOutcome) {
    match sender.try_send(message) {
        Ok(()) => SendOutcome::Delivered,
        Err(error) => if error.is_full() {
            SendOutcome::Full
        } else {
            SendOutcome::Disconnected
        },
    }
}

/// The position of the registration of `id` at or after `from`.
pub open spec fn position_from(subscribers: Seq<Subscriber>, id: StreamId, from: int) -> Option<
    int,
>
    decreases subscribers.len() - from,
{
    if from < 0 || from >= subscribers.len() {
        None
    } else if subscribers[from].id == id {
        Some(from)
    } else {
        position_from(subscribers, id, from + 1)
    }
}

/// The position of the registration of `id`.
pub open spec fn position(subscribers: Seq<Subscriber>, id: StreamId) -> Option<int> {
    position_from(subscribers, id, 0)
}

/// No id is registered twice.
pub open spec fn distinct(subscribers: Seq<Subscriber>) -> bool {
    forall|i: int, j: int|
        0 <= i < j < subscribers.len() ==> subscribers[i].id != subscribers[j].id
}

/// The registrations after `id` is registered with `sender`: the channel of
/// an id that is already there is replaced in its place, a new id goes to
/// the end.
pub open spec fn registered(
    subscribers: Seq<Subscriber>,
    id: StreamId,
    sender: Sender<ClipboardResult>,
) -> Seq<Subscriber> {
    match position(subscribers, id) {
        Some(at) => subscribers.update(at, Subscriber { id, sender }),
        None => subscribers.push(Subscriber { id, sender }),
    }
}

/// The registrations after `id` is unregistered: its registration is gone,
/// the others keep their order.
pub open spec fn unregistered(subscribers: Seq<Subscriber>, id: StreamId) -> Seq<Subscriber> {
    match position(subscribers, id) {
        Some(at) => subscribers.remove(at),
        None => subscribers,
    }
}

/// What a position found, or not found, says of the registrations.
pub proof fn lemma_position(subscribers: Seq<Subscriber>, id: StreamId, from: int)
    requires
        0 <= from,
    ensures
        match position_from(subscribers, id, from) {
            Some(at) => {
                &&& from <= at < subscribers.len()
                &&& subscribers[at].id == id
                &&& forall|k: int| from <= k < at ==> subscribers[k].id != id
            },
            None => forall|k: int| from <= k < subscribers.len() ==> subscribers[k].id != id,
        },
    decreases subscribers.len() - from,
{
    if from < subscribers.len() && subscribers[from].id != id {
        lemma_position(subscribers, id, from + 1);
    }
}

/// An id that is registered nowhere at or after `from` has no position there.
pub proof fn lemma_position_none(subscribers: Seq<Subscriber>, id: StreamId, from: int)
    requires
        0 <= from,
        forall|k: int| from <= k < subscribers.len() ==> subscribers[k].id != id,
    ensures
        position_from(subscribers, id, from) is None,
    decreases subscribers.len() - from,
{
    if from < subscribers.len() {
        lemma_position_none(subscribers, id, from + 1);
    }
}

/// Registering keeps the ids distinct.
pub proof fn lemma_registered_distinct(
    subscribers: Seq<Subscriber>,
    id: StreamId,
    sender: Sender<ClipboardResult>,
)
    requires
        distinct(subscribers),
    ensures
        distinct(registered(subscribers, id, sender)),
{
    lemma_position(subscribers, id, 0);
}

/// Unregistering keeps the ids distinct.
pub proof fn lemma_unregistered_distinct(subscribers: Seq<Subscriber>, id: StreamId)
    requires
        distinct(subscribers),
    ensures
        distinct(unregistered(subscribers, id)),
{
    lemma_position(subscribers, id, 0);
}

/// Unregistering is idempotent: a second call for the same id finds nothing
/// to remove and leaves the registrations as the first call left them.
pub proof fn law_unregister_twice_is_once(subscribers: Seq<Subscriber>, id: StreamId)
    requires
        distinct(subscribers),
    ensures
        unregistered(unregistered(subscribers, id), id) == unregistered(subscribers, id),
        position(unregistered(subscribers, id), id) is None,
{
    lemma_position(subscribers, id, 0);
    lemma_position_none(unregistered(subscribers, id), id, 0);
}

/// Unregistering an id that is not registered changes nothing.
pub proof fn law_unregister_missing_is_noop(subscribers: Seq<Subscriber>, id: StreamId)
    requires
        forall|k: int| 0 <= k < subscribers.len() ==> subscribers[k].id != id,
    ensures
        unregistered(subscribers, id) == subscribers,
{
    lemma_position_none(subscribers, id, 0);
}

/// Where `id` is registered among `subscribers`.
fn find_subscriber(subscribers: &Vec<Subscriber>, id: StreamId) -> (found: Option<usize>)
    ensures
        match found {
            Some(at) => position(subscribers@, id) == Some(at as int) && at < subscribers.len(),
            None => position(subscribers@, id) is None,
        },
{
    let mut index: usize = 0;
    while index < subscribers.len()
        invariant
            index <= subscribers.len(),
            position(subscribers@, id) == position_from(subscribers@, id, index as int),
        decreases subscribers.len() - index,
    {
        if subscribers[index].id.0 == id.0 {
            return Some(index);
        }
        index += 1;
    }
    None
}

/// Puts the registration of `id` with `tx` among `subscribers`.
fn insert_subscriber(subscribers: &mut Vec<Subscriber>, id: StreamId, tx: Sender<ClipboardResult>)
    ensures
        final(subscribers)@ == registered(old(subscribers)@, id, tx),
{
    match find_subscriber(subscribers, id) {
        Some(at) => {
            subscribers[at] = Subscriber { id, sender: tx };
        },
        None => {
            subscribers.push(Subscriber { id, sender: tx });
        },
    }
}

/// Takes the registration of `id` from `subscribers`.
fn remove_subscriber(subscribers: &mut Vec<Subscriber>, id: StreamId)
    ensures
        final(subscribers)@ == unregistered(old(subscribers)@, id),
{
    match find_subscriber(subscribers, id) {
        Some(at) => {
            let _ = subscribers.remove(at);
        },
        None => {},
    }
}

/// Attempts one send of a copy of `result` on every channel, in order.
fn fan_out(subscribers: &mut Vec<Subscriber>, result: ClipboardResult) -> (report: Vec<Delivery>)
    ensures
        same_ids(final(subscribers)@, old(subscribers)@),
        report.len() == old(subscribers)@.len(),
        forall|k: int| 0 <= k < report.len() ==> report[k].id == old(subscribers)@[k].id,
{
    let mut report: Vec<Delivery> = Vec::new();
    let mut index: usize = 0;
    while index < subscribers.len()
        invariant
            index <= subscribers.len(),
            same_ids(subscribers@, old(subscribers)@),
            report.len() == index,
            forall|k: int| 0 <= k < index ==> report[k].id == old(subscribers)@[k].id,
        decreases subscribers.len() - index,
    {
        let copy = share(&result);
        let subscriber = &mut subscribers[index];
        let outcome = try_send(&mut subscriber.sender, copy);
        report.push(Delivery { id: subscriber.id, outcome });
        index += 1;
    }
    report
}

/// The registry of subscribers: a table from subscriber id to the sending
/// end of the subscriber's channel. No id is in it twice.
pub struct BodySenders {
    subscribers: Vec<Subscriber>,
}

impl BodySenders {
    #[verifier::type_invariant]
    spec fn distinct_ids(self) -> bool {
        distinct(self.subscribers@)
    }

    /// The registrations, in the order in which their ids were registered.
    pub closed spec fn view(&self) -> Seq<Subscriber> {
        self.subscribers@
    }

    /// Moves the registrations out, leaving none behind, so that they can
    /// be worked on and put back as a whole.
    fn take(&mut self) -> (subscribers: Vec<Subscriber>)
        ensures
            subscribers@ == old(self)@,
            final(self)@.len() == 0,
    {
        let mut subscribers: Vec<Subscriber> = Vec::new();
        std::mem::swap(&mut self.subscribers, &mut subscribers);
        subscribers
    }

    /// An empty registry.
    pub fn new() -> (registry: Self)
        ensures
            registry@.len() == 0,
    {
        BodySenders { subscribers: Vec::new() }
    }

    /// The number of registrations.
    pub fn len(&self) -> (count: usize)
        ensures
            count == self@.len(),
            distinct(self@),
    {
        proof {
            use_type_invariant(self);
        }
        self.subscribers.len()
    }

    /// Whether `id` is registered.
    pub fn contains(&self, id: StreamId) -> (present: bool)
        ensures
            present == (position(self@, id) is Some),
    {
        find_subscriber(&self.subscribers, id).is_some()
    }

    /// Registers `tx` as the channel of `id`. The channel that `id` had
    /// before, if any, is dropped.
    pub fn register(&mut self, id: StreamId, tx: Sender<ClipboardResult>)
        ensures
            final(self)@ == registered(old(self)@, id, tx),
            distinct(final(self)@),
    {
        proof {
            use_type_invariant(&*self);
            lemma_registered_distinct(self@, id, tx);
        }
        let mut subscribers = self.take();
        insert_subscriber(&mut subscribers, id, tx);
        self.subscribers = subscribers;
    }

    /// Removes the registration of `id` and drops its channel. Nothing
    /// happens where `id` is not registered.
    pub fn unregister(&mut self, id: &StreamId)
        ensures
            final(self)@ == unregistered(old(self)@, *id),
            distinct(final(self)@),
    {
        proof {
            use_type_invariant(&*self);
            lemma_unregistered_distinct(self@, *id);
        }
        let mut subscribers = self.take();
        remove_subscriber(&mut subscribers, *id);
        self.subscribers = subscribers;
    }

    /// Sends one result to every subscriber: one attempt each, in
    /// registration order, none of them blocking. An attempt that fails
    /// because the channel is full or closed is noted in the report and
    /// changes nothing else: the subscriber stays registered and the
    /// subscribers after it get their attempt all the same.
    pub fn send_all(&mut self, result: ClipboardResult) -> (report: Vec<Delivery>)
        ensures
            same_ids(final(self)@, old(self)@),
            distinct(final(self)@),
            report.len() == old(self)@.len(),
            forall|k: int| 0 <= k < report.len() ==> report[k].id == old(self)@[k].id,
    {
        proof {
            use_type_invariant(&*self);
        }
        let mut subscribers = self.take();
        let report = fan_out(&mut subscribers, result);
        self.subscribers = subscribers;
        report
    }
}

/// Two lists of registrations with the same ids in the same order.
pub open spec fn same_ids(a: Seq<Subscriber>, b: Seq<Subscriber>) -> bool {
    &&& a.len() == b.len()
    &&& forall|k: int| 0 <= k < a.len() ==> a[k].id == b[k].id
}

} // verus!
