//! Blocking on a future that may return a value.

use vstd::prelude::*;

use winit::error::EventLoopError;

use crate::event::Event;
use crate::signal::Signal;
use crate::turn::{take_turn, Action};
#[allow(unused_imports)]
use crate::turn::{action_for, ready_next};

verus! {

/// `winit::error::EventLoopError`, carried unread.
#[verifier::external_type_specification]
#[verifier::external_body]
pub struct ExEventLoopError(winit::error::EventLoopError);

/// Either one option or another.
#[derive(Debug)]
pub enum BlockOnReturnResult<T> {
    /// The future returned a value.
    Value(T),
    /// The loop exited.
    Exit(Result<(), EventLoopError>),
}

/// What the caller gets: the future's value if there is one, and otherwise how the
/// loop exited.
pub open spec fn conclusion<O>(
    output: Option<O>,
    exit: Result<(), EventLoopError>,
) -> BlockOnReturnResult<O> {
    match output {
        Some(value) => BlockOnReturnResult::Value(value),
        None => BlockOnReturnResult::Exit(exit),
    }
}

/// The value kept after a poll, given the one kept before it and what the poll gave: the
/// first value that the future returned stays.
pub open spec fn output_next<O>(output: Option<O>, polled: Option<O>) -> Option<O> {
    if output is Some {
        output
    } else {
        polled
    }
}

/// The state of a loop that blocks on a future until the loop exits or the future
/// returns a value.
///
/// The future is polled when the loop is about to wait or is exiting, and only if it
/// was woken since it last could be polled. Once it has returned a value it is not
/// polled any more.
#[derive(Debug)]
pub struct BlockOnReturn<O> {
    ready: bool,
    output: Option<O>,
}

impl<O> BlockOnReturn<O> {
    /// Whether the future is polled at the next opportunity, unless it has returned.
    pub closed spec fn ready(&self) -> bool {
        self.ready
    }

    /// The value that the future returned, if it has.
    pub closed spec fn output(&self) -> Option<O> {
        self.output
    }

    /// The state before the first event: the future is still to be polled once.
    pub fn new() -> (state: Self)
        ensures
            state.ready(),
            state.output() is None,
    {
        BlockOnReturn { ready: true, output: None }
    }

    /// Decides what is to be done about the next event of the loop.
    pub fn on_event<T>(&mut self, event: Event<Signal<T>>) -> (action: Action<T>)
        ensures
            action == action_for(old(self).ready() && old(self).output() is None, event, true),
            final(self).ready() == ready_next(old(self).ready(), event, true),
            final(self).output() == old(self).output(),
    {
        match take_turn(&mut self.ready, event, true) {
            Action::ForwardThenPoll(seen) => if self.output.is_none() {
                Action::ForwardThenPoll(seen)
            } else {
                Action::Forward(seen)
            },
            action => action,
        }
    }

    /// Takes in what a poll of the future gave: `Some` if it returned a value, `None`
    /// if it is pending. The first value stays. The loop is to be told to exit if and
    /// only if the result is `true`.
    #[must_use]
    pub fn on_poll(&mut self, polled: Option<O>) -> (exit: bool)
        ensures
            exit <==> polled is Some,
            final(self).output() == output_next(old(self).output(), polled),
            final(self).ready() == old(self).ready(),
    {
        let exit = polled.is_some();
        if self.output.is_none() {
            self.output = polled;
        }
        exit
    }

    /// Concludes, once the loop has exited with `exit`.
    pub fn finish(self, exit: Result<(), EventLoopError>) -> (result: BlockOnReturnResult<O>)
        ensures
            result == conclusion(self.output(), exit),
    {
        match self.output {
            Some(output) => BlockOnReturnResult::Value(output),
            None => BlockOnReturnResult::Exit(exit),
        }
    }
}

} // verus!
