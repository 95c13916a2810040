//! One turn of the loop: what a single event leads to.

use vstd::prelude::*;

use crate::event::Event;
use crate::signal::Signal;

verus! {

/// What is to be done about one event of the loop.
#[derive(Debug, PartialEq)]
pub enum Action<T> {
    /// Nothing: the event was a wakeup.
    Ignore,
    /// Hand the event to the handler.
    Forward(Event<T>),
    /// Hand the event to the handler, and once it has returned, poll the future.
    ForwardThenPoll(Event<T>),
}

impl<T> Action<T> {
    /// The event that the action hands to the handler.
    pub open spec fn forwarded(self) -> Option<Event<T>> {
        match self {
            Action::Ignore => None,
            Action::Forward(event) => Some(event),
            Action::ForwardThenPoll(event) => Some(event),
        }
    }

    /// Whether the action polls the future.
    pub open spec fn polls(self) -> bool {
        self is ForwardThenPoll
    }
}

/// Whether the future may be polled after the event: when the loop is about to wait,
/// and, if `on_exit`, also when the loop is exiting.
pub open spec fn is_poll_point<T>(event: Event<Signal<T>>, on_exit: bool) -> bool {
    event is AboutToWait || (on_exit && event is LoopExiting)
}

/// What is to be done about the event, given whether the future is ready to be polled.
pub open spec fn action_for<T>(ready: bool, event: Event<Signal<T>>, on_exit: bool) -> Action<T> {
    match event.delivered() {
        None => Action::Ignore,
        Some(seen) => if ready && is_poll_point(event, on_exit) {
            Action::ForwardThenPoll(seen)
        } else {
            Action::Forward(seen)
        },
    }
}

/// Whether the future is ready to be polled after the event: a wakeup makes it ready,
/// an opportunity to poll uses the readiness up, and nothing else changes it.
pub open spec fn ready_next<T>(ready: bool, event: Event<Signal<T>>, on_exit: bool) -> bool {
    event.is_wakeup() || (ready && !is_poll_point(event, on_exit))
}

/// Decides on one event and keeps `ready` up to date.
pub(crate) fn take_turn<T>(ready: &mut bool, event: Event<Signal<T>>, on_exit: bool) -> (action:
    Action<T>)
    ensures
        action == action_for(*old(ready), event, on_exit),
        *final(ready) == ready_next(*old(ready), event, on_exit),
{
    let poll_point = match &event {
        Event::AboutToWait => true,
        Event::LoopExiting => on_exit,
        _ => false,
    };
    match event.deliver() {
        None => {
            // Make sure the future is polled at the next opportunity.
            *ready = true;
            Action::Ignore
        },
        Some(seen) => if poll_point && *ready {
            *ready = false;
            Action::ForwardThenPoll(seen)
        } else {
            Action::Forward(seen)
        },
    }
}

} // verus!
