//! Block on a future with the `winit` event loop.
//!
//! `winit` does not support `async` programming by default. This crate holds what it
//! takes to decide, event by event, what a loop that blocks on a future has to do: what
//! the user's handler is to see, when the future is to be polled, when the loop is to
//! exit and what the caller gets in the end.
//!
//! The loop carries `Signal`s as its user events. A signal is either a value of the user
//! or a wakeup, sent by the waker that the future is polled with. For each event that
//! the loop emits, `BlockOn::on_event` or `BlockOnReturn::on_event` gives the `Action`
//! to perform. What each operation does is stated in `operations`, and what follows over a
//! whole run in `laws`.

pub mod block_on;
pub mod builder;
pub mod event;
pub mod laws;
pub mod operations;
pub mod run_return;
pub mod signal;
pub mod turn;

pub use block_on::BlockOn;
pub use builder::EventLoopBuilderExt;
pub use event::Event;
pub use run_return::{BlockOnReturn, BlockOnReturnResult};
pub use signal::Signal;
pub use turn::Action;
