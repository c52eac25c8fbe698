//! The observer: the decisions of the loop that waits for clipboard changes.
//!
//! The loop itself runs outside this library. Each turn it tells the
//! observer what happened (a stop request, or what the provider said about
//! a change) and does what the observer answers.

use crate::error::{ClipboardError, ErrorView};
use vstd::prelude::*;

verus! {

/// The two states of an observer. `Stopped` is final.
#[derive(Debug, Clone, Copy, PartialEq, Eq)]
pub enum ObserverState {
    Waiting,
    Stopped,
}

/// What one turn of the loop found.
#[derive(Debug, Clone, PartialEq, Eq)]
pub enum ObserverEvent {
    /// The stop flag is set.
    StopRequested,
    /// The provider saw no change.
    NoChange,
    /// The provider saw a change.
    Changed,
    /// The provider's change counter reads this value.
    Revision(u64),
    /// The provider's change notification broke for good.
    MonitorFailed(String),
}

/// The mathematical value of an [`ObserverEvent`].
pub enum EventView {
    StopRequested,
    NoChange,
    Changed,
    Revision(u64),
    MonitorFailed(Seq<char>),
}

impl View for ObserverEvent {
    type V = EventView;

    open spec fn view(&self) -> EventView {
        match self {
            ObserverEvent::StopRequested => EventView::StopRequested,
            ObserverEvent::NoChange => EventView::NoChange,
            ObserverEvent::Changed => EventView::Changed,
            ObserverEvent::Revision(revision) => EventView::Revision(*revision),
            ObserverEvent::MonitorFailed(reason) => EventView::MonitorFailed(reason@),
        }
    }
}

/// What the loop has to do next.
#[derive(Debug, Clone, PartialEq, Eq)]
pub enum ObserverAction {
    /// Leave the loop.
    Exit,
    /// Nothing changed: rest for so many milliseconds, then look again.
    Rest { millis: u64 },
    /// Open a session, classify the content and broadcast the result.
    Classify,
    /// Broadcast this failure, then leave the loop.
    Report(ClipboardError),
}

/// The mathematical value of an [`ObserverAction`].
pub enum ActionView {
    Exit,
    Rest { millis: u64 },
    Classify,
    Report(ErrorView),
}

impl View for ObserverAction {
    type V = ActionView;

    open spec fn view(&self) -> ActionView {
        match self {
            ObserverAction::Exit => ActionView::Exit,
            ObserverAction::Rest { millis } => ActionView::Rest { millis: *millis },
            ObserverAction::Classify => ActionView::Classify,
            ObserverAction::Report(error) => ActionView::Report(error@),
        }
    }
}

/// The observer of one driver.
#[derive(Debug, Clone, Copy, PartialEq, Eq)]
pub struct Observer {
    pub state: ObserverState,
    /// The change counter that was last seen, for providers that count.
    pub last_revision: Option<u64>,
    /// How long to rest when nothing changed, in milliseconds.
    pub poll_interval_ms: u64,
}

/// The transition function of the observer: its next value and the action
/// it asks for, on one event.
pub open spec fn observe_step(observer: Observer, event: EventView) -> (Observer, ActionView) {
    match observer.state {
        ObserverState::Stopped => (observer, ActionView::Exit),
        ObserverState::Waiting => match event {
            EventView::StopRequested => (
                Observer { state: ObserverState::Stopped, ..observer },
                ActionView::Exit,
            ),
            EventView::NoChange => (
                observer,
                ActionView::Rest { millis: observer.poll_interval_ms },
            ),
            EventView::Changed => (observer, ActionView::Classify),
            EventView::Revision(revision) => if observer.last_revision == Some(revision) {
                (observer, ActionView::Rest { millis: observer.poll_interval_ms })
            } else {
                (Observer { last_revision: Some(revision), ..observer }, ActionView::Classify)
            },
            EventView::MonitorFailed(reason) => (
                Observer { state: ObserverState::Stopped, ..observer },
                ActionView::Report(ErrorView::MonitorFailed(reason)),
            ),
        },
    }
}

/// The observer after a sequence of events.
pub open spec fn observer_after(observer: Observer, events: Seq<EventView>) -> Observer
    decreases events.len(),
{
    if events.len() == 0 {
        observer
    } else {
        observe_step(observer_after(observer, events.drop_last()), events.last()).0
    }
}

/// The action that the last of a sequence of events leads to.
pub open spec fn last_action(observer: Observer, events: Seq<EventView>) -> ActionView
    recommends
        events.len() > 0,
{
    observe_step(observer_after(observer, events.drop_last()), events.last()).1
}

/// Whether an action makes the loop broadcast to subscribers.
pub open spec fn broadcasts(action: ActionView) -> bool {
    action is Classify || action is Report
}

/// `Stopped` is final: a stopped observer stays as it is, whatever comes.
pub proof fn law_stopped_stays_stopped(observer: Observer, events: Seq<EventView>)
    requires
        observer.state == ObserverState::Stopped,
    ensures
        observer_after(observer, events) == observer,
    decreases events.len(),
{
    if events.len() > 0 {
        law_stopped_stays_stopped(observer, events.drop_last());
    }
}

/// Nothing is broadcast after a stop: once a stop request or a monitor
/// failure has been among the events, every later event leads to `Exit`.
pub proof fn law_no_broadcast_after_stop(
    observer: Observer,
    before: Seq<EventView>,
    stop: EventView,
    after: Seq<EventView>,
)
    requires
        stop is StopRequested || stop is MonitorFailed,
        after.len() > 0,
    ensures
        last_action(observer, before.push(stop) + after) == ActionView::Exit,
        !broadcasts(last_action(observer, before.push(stop) + after)),
{
    let stopped = observer_after(observer, before.push(stop));
    assert(before.push(stop).drop_last() == before);
    assert(stopped.state == ObserverState::Stopped);
    lemma_observer_after_append(observer, before.push(stop), after.drop_last());
    law_stopped_stays_stopped(stopped, after.drop_last());
    assert((before.push(stop) + after).drop_last() == before.push(stop) + after.drop_last());
}

/// Events taken one sequence after another are events taken in one sequence.
pub proof fn lemma_observer_after_append(
    observer: Observer,
    first: Seq<EventView>,
    second: Seq<EventView>,
)
    ensures
        observer_after(observer, first + second) == observer_after(
            observer_after(observer, first),
            second,
        ),
    decreases second.len(),
{
    if second.len() == 0 {
        assert(first + second == first);
    } else {
        lemma_observer_after_append(observer, first, second.drop_last());
        assert((first + second).drop_last() == first + second.drop_last());
    }
}

impl Observer {
    /// A waiting observer that has seen no change counter yet.
    pub fn new(poll_interval_ms: u64) -> (observer: Self)
        ensures
            observer == (Observer {
                state: ObserverState::Waiting,
                last_revision: None,
                poll_interval_ms,
            }),
    {
        Observer { state: ObserverState::Waiting, last_revision: None, poll_interval_ms }
    }

    /// A waiting observer for a provider that counts changes: `revision` is
    /// the counter as it stands, so only a later value is a change.
    pub fn with_revision(poll_interval_ms: u64, revision: u64) -> (observer: Self)
        ensures
            observer == (Observer {
                state: ObserverState::Waiting,
                last_revision: Some(revision),
                poll_interval_ms,
            }),
    {
        Observer { state: ObserverState::Waiting, last_revision: Some(revision), poll_interval_ms }
    }

    /// Whether the loop is over.
    pub fn is_stopped(&self) -> (stopped: bool)
        ensures
            stopped == (self.state == ObserverState::Stopped),
    {
        match self.state {
            ObserverState::Stopped => true,
            ObserverState::Waiting => false,
        }
    }

    /// Takes one event and says what the loop has to do.
    pub fn step(&mut self, event: ObserverEvent) -> (action: ObserverAction)
        ensures
            (*final(self), action@) == observe_step(*old(self), event@),
    {
        match self.state {
            ObserverState::Stopped => ObserverAction::Exit,
            ObserverState::Waiting => match event {
                ObserverEvent::StopRequested => {
                    self.state = ObserverState::Stopped;
                    ObserverAction::Exit
                },
                ObserverEvent::NoChange => ObserverAction::Rest { millis: self.poll_interval_ms },
                ObserverEvent::Changed => ObserverAction::Classify,
                ObserverEvent::Revision(revision) => {
                    let seen = match self.last_revision {
                        Some(last) => last == revision,
                        None => false,
                    };
                    if seen {
                        ObserverAction::Rest { millis: self.poll_interval_ms }
                    } else {
                        self.last_revision = Some(revision);
                        ObserverAction::Classify
                    }
                },
                ObserverEvent::MonitorFailed(reason) => {
                    self.state = ObserverState::Stopped;
                    ObserverAction::Report(ClipboardError::MonitorFailed(reason))
                },
            },
        }
    }
}

} // verus!
