//! Building an event loop that can block on a future.

use vstd::prelude::*;

use winit::event_loop::EventLoopBuilder;

use crate::signal::Signal;

verus! {

/// `winit::event_loop::EventLoopBuilder`, carried unread.
#[verifier::external_type_specification]
#[verifier::external_body]
#[verifier::reject_recursive_types(T)]
pub struct ExEventLoopBuilder<T: 'static>(winit::event_loop::EventLoopBuilder<T>);

/// `winit::event_loop::EventLoopBuilder::with_user_event` starts building an event
/// loop whose user events are of the given type. Nothing is claimed of the builder:
/// it tells its settings to nobody but the loop that it builds.
pub assume_specification<T>[ winit::event_loop::EventLoopBuilder::<T>::with_user_event ]() -> (builder:
    winit::event_loop::EventLoopBuilder<T>)
;

/// An extension trait for `EventLoopBuilder` that allows one to construct an
/// event loop that can block on the future.
pub trait EventLoopBuilderExt: Sized {
    /// Starts building a new async event loop.
    fn new_block_on() -> Self;
}

impl<T> EventLoopBuilderExt for EventLoopBuilder<Signal<T>> {
    /// The builder is one that `EventLoopBuilder::with_user_event` returns for signals.
    fn new_block_on() -> (builder: Self)
        ensures
            call_ensures(EventLoopBuilder::<Signal<T>>::with_user_event, (), builder),
    {
        Self::with_user_event()
    }
}

} // verus!
