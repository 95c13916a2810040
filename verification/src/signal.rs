//! The user event that the event loop carries.

use vstd::prelude::*;

verus! {

/// The signal used to notify the event loop that it should wake up.
///
/// A signal either carries a value of the user, or asks the loop to poll the
/// future again. Users make signals with `From`.
#[derive(Debug)]
pub struct Signal<T>(Inner<T>);

#[derive(Debug)]
enum Inner<T> {
    User(T),
    Wakeup,
}

/// A signal is seen as the user's value, if it carries one; a wakeup carries none.
impl<T> View for Signal<T> {
    type V = Option<T>;

    closed spec fn view(&self) -> Option<T> {
        match self.0 {
            Inner::User(t) => Some(t),
            Inner::Wakeup => None,
        }
    }
}

impl<T> From<T> for Signal<T> {
    fn from(t: T) -> (signal: Self)
        ensures
            signal@ == Some(t),
    {
        Self(Inner::User(t))
    }
}

impl<T> vstd::std_specs::convert::FromSpecImpl<T> for Signal<T> {
    open spec fn obeys_from_spec() -> bool {
        true
    }

    closed spec fn from_spec(t: T) -> Self {
        Signal(Inner::User(t))
    }
}

impl<T> Signal<T> {
    /// The signal that a waker sends: it asks the loop to poll the future again.
    pub fn wakeup() -> (signal: Self)
        ensures
            signal@ is None,
    {
        Self(Inner::Wakeup)
    }

    /// Takes the user's value out of the signal; `None` for a wakeup.
    pub(crate) fn into_user(self) -> (user: Option<T>)
        ensures
            user == self@,
    {
        match self.0 {
            Inner::User(t) => Some(t),
            Inner::Wakeup => None,
        }
    }
}

/// A signal made from a value holds that value.
pub proof fn law_signal_holds_value<T>(user: T)
    ensures
        <Signal<T> as vstd::std_specs::convert::FromSpec<T>>::from_spec(user)@ == Some(user),
{
}

} // verus!
