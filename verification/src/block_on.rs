//! Blocking on a future that never returns.

use vstd::prelude::*;

use crate::event::Event;
use crate::signal::Signal;
use crate::turn::{take_turn, Action};
#[allow(unused_imports)]
use crate::turn::{action_for, ready_next};

verus! {

/// The state of a loop that blocks on a future indefinitely.
///
/// The future is polled when the loop is about to wait, and only if it was woken
/// since its last poll. Whatever a poll gives back is of no interest: such a future
/// never returns a value.
#[derive(Debug)]
pub struct BlockOn {
    ready: bool,
}

impl BlockOn {
    /// Whether the future is polled at the next opportunity.
    pub closed spec fn ready(&self) -> bool {
        self.ready
    }

    /// The state before the first event: the future is still to be polled once.
    pub fn new() -> (state: Self)
        ensures
            state.ready(),
    {
        BlockOn { ready: true }
    }

    /// Decides what is to be done about the next event of the loop.
    pub fn on_event<T>(&mut self, event: Event<Signal<T>>) -> (action: Action<T>)
        ensures
            action == action_for(old(self).ready(), event, false),
            final(self).ready() == ready_next(old(self).ready(), event, false),
    {
        take_turn(&mut self.ready, event, false)
    }
}

} // verus!
