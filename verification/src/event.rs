//! The events of the loop, and what the user's handler is to see of them.

use vstd::prelude::*;

use crate::signal::Signal;

verus! {

/// `winit::event::StartCause`, carried unread.
#[verifier::external_type_specification]
#[verifier::external_body]
pub struct ExStartCause(winit::event::StartCause);

/// `winit::window::WindowId`, carried unread.
#[verifier::external_type_specification]
#[verifier::external_body]
pub struct ExWindowId(winit::window::WindowId);

/// `winit::event::WindowEvent`, carried unread.
#[verifier::external_type_specification]
#[verifier::external_body]
pub struct ExWindowEvent(winit::event::WindowEvent);

/// `winit::event::DeviceId`, carried unread.
#[verifier::external_type_specification]
#[verifier::external_body]
pub struct ExDeviceId(winit::event::DeviceId);

/// `winit::event::DeviceEvent`, carried unread.
#[verifier::external_type_specification]
#[verifier::external_body]
pub struct ExDeviceEvent(winit::event::DeviceEvent);

/// An event of the loop, with the variants of `winit::event::Event`.
#[derive(Debug, PartialEq)]
#[allow(inconsistent_fields)]
pub enum Event<T> {
    /// New events arrive from the OS to be processed.
    NewEvents(winit::event::StartCause),
    /// The OS sends an event to a window.
    WindowEvent { window_id: winit::window::WindowId, event: winit::event::WindowEvent },
    /// The OS sends an event to a device.
    DeviceEvent { device_id: winit::event::DeviceId, event: winit::event::DeviceEvent },
    /// An event sent through a proxy of the loop.
    UserEvent(T),
    /// The application has been suspended.
    Suspended,
    /// The application has been resumed.
    Resumed,
    /// The loop is about to block and wait for more events.
    AboutToWait,
    /// The loop is shutting down; the last event it emits.
    LoopExiting,
    /// The application has received a memory warning.
    MemoryWarning,
}

impl<T> Event<T> {
    /// The same event under another user type; a user event has none and comes back
    /// as the error.
    pub open spec fn nonuser<U>(self) -> Result<Event<U>, Event<T>> {
        match self {
            Event::NewEvents(cause) => Ok(Event::NewEvents(cause)),
            Event::WindowEvent { window_id, event } => Ok(Event::WindowEvent { window_id, event }),
            Event::DeviceEvent { device_id, event } => Ok(Event::DeviceEvent { device_id, event }),
            Event::UserEvent(_) => Err(self),
            Event::Suspended => Ok(Event::Suspended),
            Event::Resumed => Ok(Event::Resumed),
            Event::AboutToWait => Ok(Event::AboutToWait),
            Event::LoopExiting => Ok(Event::LoopExiting),
            Event::MemoryWarning => Ok(Event::MemoryWarning),
        }
    }

    /// Changes the user type of an event that is no user event.
    pub fn map_nonuser_event<U>(self) -> (mapped: Result<Event<U>, Event<T>>)
        ensures
            mapped == self.nonuser::<U>(),
            mapped is Err <==> self is UserEvent,
    {
        match self {
            Event::NewEvents(cause) => Ok(Event::NewEvents(cause)),
            Event::WindowEvent { window_id, event } => Ok(Event::WindowEvent { window_id, event }),
            Event::DeviceEvent { device_id, event } => Ok(Event::DeviceEvent { device_id, event }),
            Event::UserEvent(user) => Err(Event::UserEvent(user)),
            Event::Suspended => Ok(Event::Suspended),
            Event::Resumed => Ok(Event::Resumed),
            Event::AboutToWait => Ok(Event::AboutToWait),
            Event::LoopExiting => Ok(Event::LoopExiting),
            Event::MemoryWarning => Ok(Event::MemoryWarning),
        }
    }
}

impl<T> Event<Signal<T>> {
    /// Whether a waker sent the event.
    pub open spec fn is_wakeup(self) -> bool {
        self matches Event::UserEvent(signal) && signal@ is None
    }

    /// What the handler is to see of the event: a user event holds the user's own
    /// value, any other event is as it came, and a wakeup is not seen at all.
    pub open spec fn delivered(self) -> Option<Event<T>> {
        match self {
            Event::UserEvent(signal) => match signal@ {
                Some(user) => Some(Event::UserEvent(user)),
                None => None,
            },
            event => Some(event.nonuser::<T>()->Ok_0),
        }
    }

    /// Takes the signal off the event.
    pub fn deliver(self) -> (event: Option<Event<T>>)
        ensures
            event == self.delivered(),
            event is None <==> self.is_wakeup(),
    {
        match self {
            Event::UserEvent(signal) => match signal.into_user() {
                Some(user) => Some(Event::UserEvent(user)),
                None => None,
            },
            event => event.map_nonuser_event().ok(),
        }
    }
}

} // verus!
