//! What each operation does, said of its arguments and of what it gives back.
//!
//! Each law takes the arguments and the result of calls, and speaks of the variants of
//! the events and of the values in them.

use vstd::prelude::*;

#[allow(unused_imports)]
use winit::error::EventLoopError;

#[allow(unused_imports)]
use crate::block_on::BlockOn;
#[allow(unused_imports)]
use crate::event::Event;
#[allow(unused_imports)]
use crate::run_return::{BlockOnReturn, BlockOnReturnResult};
#[allow(unused_imports)]
use crate::signal::Signal;
#[allow(unused_imports)]
use crate::turn::Action;

verus! {

/// Changing the user type of an event keeps the event: its variant and all that it
/// carries. A user event, and no other, comes back as the error, untouched.
pub proof fn law_map_keeps_event<T, U>(event: Event<T>, mapped: Result<Event<U>, Event<T>>)
    requires
        call_ensures(Event::<T>::map_nonuser_event::<U>, (event,), mapped),
    ensures
        event matches Event::NewEvents(cause) ==> mapped == Ok::<Event<U>, Event<T>>(
            Event::NewEvents(cause),
        ),
        event matches Event::WindowEvent { window_id, event: inner } ==> mapped == Ok::<
            Event<U>,
            Event<T>,
        >(Event::WindowEvent { window_id, event: inner }),
        event matches Event::DeviceEvent { device_id, event: inner } ==> mapped == Ok::<
            Event<U>,
            Event<T>,
        >(Event::DeviceEvent { device_id, event: inner }),
        event is Suspended ==> mapped == Ok::<Event<U>, Event<T>>(Event::Suspended),
        event is Resumed ==> mapped == Ok::<Event<U>, Event<T>>(Event::Resumed),
        event is AboutToWait ==> mapped == Ok::<Event<U>, Event<T>>(Event::AboutToWait),
        event is LoopExiting ==> mapped == Ok::<Event<U>, Event<T>>(Event::LoopExiting),
        event is MemoryWarning ==> mapped == Ok::<Event<U>, Event<T>>(Event::MemoryWarning),
        event is UserEvent ==> mapped == Err::<Event<U>, Event<T>>(event),
{
}

/// Changing the user type of an event and changing it back gives the event again.
pub proof fn law_map_round_trip<T, U>(
    event: Event<T>,
    mapped: Result<Event<U>, Event<T>>,
    back: Result<Event<T>, Event<U>>,
)
    requires
        !(event is UserEvent),
        call_ensures(Event::<T>::map_nonuser_event::<U>, (event,), mapped),
        mapped is Ok ==> call_ensures(
            Event::<U>::map_nonuser_event::<T>,
            (mapped->Ok_0,),
            back,
        ),
    ensures
        mapped is Ok,
        back == Ok::<Event<T>, Event<U>>(event),
{
}

/// The handler is to see every event as it came, but for the signals: of those it sees
/// the user's value, and a signal without one, and nothing else, is kept from it.
pub proof fn law_deliver_keeps_event<T>(event: Event<Signal<T>>, seen: Option<Event<T>>)
    requires
        call_ensures(Event::<Signal<T>>::deliver, (event,), seen),
    ensures
        seen is None <==> (event matches Event::UserEvent(signal) && signal@ is None),
        event matches Event::UserEvent(signal) ==> (signal@ matches Some(user) ==> seen == Some(
            Event::UserEvent(user),
        )),
        event matches Event::NewEvents(cause) ==> seen == Some(Event::<T>::NewEvents(cause)),
        event matches Event::WindowEvent { window_id, event: inner } ==> seen == Some(
            Event::<T>::WindowEvent { window_id, event: inner },
        ),
        event matches Event::DeviceEvent { device_id, event: inner } ==> seen == Some(
            Event::<T>::DeviceEvent { device_id, event: inner },
        ),
        event is Suspended ==> seen == Some(Event::<T>::Suspended),
        event is Resumed ==> seen == Some(Event::<T>::Resumed),
        event is AboutToWait ==> seen == Some(Event::<T>::AboutToWait),
        event is LoopExiting ==> seen == Some(Event::<T>::LoopExiting),
        event is MemoryWarning ==> seen == Some(Event::<T>::MemoryWarning),
{
}

/// A signal made from a value carries that value and delivers it.
pub proof fn law_user_signal_delivers_value<T>(
    user: T,
    signal: Signal<T>,
    seen: Option<Event<T>>,
)
    requires
        call_ensures(<Signal<T> as From<T>>::from, (user,), signal),
        call_ensures(Event::<Signal<T>>::deliver, (Event::UserEvent(signal),), seen),
    ensures
        signal@ == Some(user),
        seen == Some(Event::UserEvent(user)),
{
}

/// The signal of a waker carries no value, and the handler does not see it.
pub proof fn law_wakeup_signal_is_hidden<T>(signal: Signal<T>, seen: Option<Event<T>>)
    requires
        call_ensures(Signal::<T>::wakeup, (), signal),
        call_ensures(Event::<Signal<T>>::deliver, (Event::UserEvent(signal),), seen),
    ensures
        signal@ is None,
        seen is None,
{
}

/// A `BlockOn` polls the future if and only if the loop is about to wait and the future
/// is ready. It ignores a signal without a value and nothing else, and forwards what
/// `deliver` gives of any other event. Such a signal makes the future ready, the loop
/// being about to wait uses the readiness up, and no other event changes it.
pub proof fn law_block_on_event<T>(
    state: &mut BlockOn,
    event: Event<Signal<T>>,
    action: Action<T>,
    seen: Option<Event<T>>,
)
    requires
        call_ensures(BlockOn::on_event::<T>, (state, event), action),
        call_ensures(Event::<Signal<T>>::deliver, (event,), seen),
    ensures
        action is ForwardThenPoll <==> (event is AboutToWait && old(state).ready()),
        action is Ignore <==> (event matches Event::UserEvent(signal) && signal@ is None),
        action matches Action::Forward(forwarded) ==> seen == Some(forwarded),
        action matches Action::ForwardThenPoll(forwarded) ==> seen == Some(forwarded),
        action is Ignore ==> final(state).ready(),
        event is AboutToWait ==> !final(state).ready(),
        !(action is Ignore) && !(event is AboutToWait)
            ==> final(state).ready() == old(state).ready(),
{
}

/// A `BlockOnReturn` polls the future if and only if the loop is about to wait or is
/// exiting, the future is ready and it has not returned. It ignores a signal without a
/// value and nothing else, and forwards what `deliver` gives of any other event. Such a
/// signal makes the future ready, the two events that allow a poll use the readiness
/// up, and no other event changes it.
pub proof fn law_block_on_return_event<T, O>(
    state: &mut BlockOnReturn<O>,
    event: Event<Signal<T>>,
    action: Action<T>,
    seen: Option<Event<T>>,
)
    requires
        call_ensures(BlockOnReturn::<O>::on_event::<T>, (state, event), action),
        call_ensures(Event::<Signal<T>>::deliver, (event,), seen),
    ensures
        action is ForwardThenPoll <==> ((event is AboutToWait || event is LoopExiting)
            && old(state).ready() && old(state).output() is None),
        action is Ignore <==> (event matches Event::UserEvent(signal) && signal@ is None),
        action matches Action::Forward(forwarded) ==> seen == Some(forwarded),
        action matches Action::ForwardThenPoll(forwarded) ==> seen == Some(forwarded),
        action is Ignore ==> final(state).ready(),
        event is AboutToWait || event is LoopExiting ==> !final(state).ready(),
        !(action is Ignore) && !(event is AboutToWait) && !(event is LoopExiting)
            ==> final(state).ready() == old(state).ready(),
        final(state).output() == old(state).output(),
{
}

/// A fresh `BlockOn` polls the future when the loop is first about to wait, and then not
/// again, until a signal without a value comes: three calls in a row.
pub proof fn law_block_on_polls_once_per_wakeup<T>(
    first: &mut BlockOn,
    second: &mut BlockOn,
    third: &mut BlockOn,
    between: Event<Signal<T>>,
    polled: Action<T>,
    middle: Action<T>,
    again: Action<T>,
)
    requires
        call_ensures(BlockOn::new, (), *old(first)),
        call_ensures(BlockOn::on_event::<T>, (first, Event::AboutToWait), polled),
        *old(second) == *final(first),
        call_ensures(BlockOn::on_event::<T>, (second, between), middle),
        *old(third) == *final(second),
        call_ensures(BlockOn::on_event::<T>, (third, Event::AboutToWait), again),
    ensures
        polled == Action::ForwardThenPoll(Event::<T>::AboutToWait),
        again == if between matches Event::UserEvent(signal) && signal@ is None {
            Action::ForwardThenPoll(Event::<T>::AboutToWait)
        } else {
            Action::Forward(Event::<T>::AboutToWait)
        },
{
}

/// A fresh `BlockOnReturn` polls the future at whichever of the two events that allow it
/// comes first. If the poll gives a value, the loop is to exit, the future is not polled
/// at any later event, and the value is what the caller gets.
pub proof fn law_block_on_return_ends_with_value<T, O>(
    first: &mut BlockOnReturn<O>,
    second: &mut BlockOnReturn<O>,
    third: &mut BlockOnReturn<O>,
    opportunity: Event<Signal<T>>,
    value: O,
    later: Event<Signal<T>>,
    polled: Action<T>,
    told_to_exit: bool,
    after: Action<T>,
    exit: Result<(), EventLoopError>,
    result: BlockOnReturnResult<O>,
)
    requires
        opportunity is AboutToWait || opportunity is LoopExiting,
        call_ensures(BlockOnReturn::<O>::new, (), *old(first)),
        call_ensures(BlockOnReturn::<O>::on_event::<T>, (first, opportunity), polled),
        *old(second) == *final(first),
        call_ensures(BlockOnReturn::<O>::on_poll, (second, Some(value)), told_to_exit),
        *old(third) == *final(second),
        call_ensures(BlockOnReturn::<O>::on_event::<T>, (third, later), after),
        call_ensures(BlockOnReturn::<O>::finish, (*final(third), exit), result),
    ensures
        polled is ForwardThenPoll,
        told_to_exit,
        !(after is ForwardThenPoll),
        result == BlockOnReturnResult::Value(value),
{
}

/// A poll that gives a value tells the loop to exit, and no other does. The value is
/// kept unless there is one already.
pub proof fn law_poll_keeps_first_value<O>(
    state: &mut BlockOnReturn<O>,
    polled: Option<O>,
    told_to_exit: bool,
)
    requires
        call_ensures(BlockOnReturn::<O>::on_poll, (state, polled), told_to_exit),
    ensures
        told_to_exit <==> polled is Some,
        old(state).output() matches Some(value) ==> final(state).output() == Some(value),
        old(state).output() is None ==> final(state).output() == polled,
        final(state).ready() == old(state).ready(),
{
}

/// The caller gets the value that was kept, however the loop exited, and without one how
/// the loop exited.
pub proof fn law_finish_prefers_value<O>(
    state: BlockOnReturn<O>,
    exit: Result<(), EventLoopError>,
    result: BlockOnReturnResult<O>,
)
    requires
        call_ensures(BlockOnReturn::<O>::finish, (state, exit), result),
    ensures
        state.output() matches Some(value) ==> result == BlockOnReturnResult::Value(value),
        state.output() is None ==> result == BlockOnReturnResult::<O>::Exit(exit),
{
}

} // verus!
