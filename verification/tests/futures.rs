use std::collections::VecDeque;
use std::future::Future;
use std::pin::Pin;
use std::sync::{Arc, Mutex};
use std::task::{Context, Poll, Wake, Waker};

use winit_block_on::{Action, BlockOnReturn, BlockOnReturnResult, Event, Signal};

/// Signals on their way to the loop.
struct Queue(Mutex<VecDeque<Signal<u8>>>);

impl Queue {
    fn send(&self, signal: Signal<u8>) {
        self.0.lock().unwrap().push_back(signal);
    }
}

impl Wake for Queue {
    fn wake(self: Arc<Self>) {
        self.send(Signal::wakeup());
    }
}

/// A future that yields a number of times, sending a value each time, and then returns.
struct Counter {
    left: u8,
    polls: u32,
    queue: Arc<Queue>,
}

impl Future for Counter {
    type Output = u32;

    fn poll(mut self: Pin<&mut Self>, cx: &mut Context<'_>) -> Poll<u32> {
        self.polls += 1;
        if self.left == 0 {
            return Poll::Ready(self.polls);
        }
        self.queue.send(Signal::from(self.left));
        self.left -= 1;
        cx.waker().wake_by_ref();
        Poll::Pending
    }
}

/// Runs the future on a loop that has no events but the signals, and that exits on its
/// own after some iterations.
fn run(left: u8, iterations: usize) -> (BlockOnReturnResult<u32>, Vec<u8>) {
    let queue = Arc::new(Queue(Mutex::new(VecDeque::new())));
    let waker = Waker::from(queue.clone());
    let mut fut = Box::pin(Counter { left, polls: 0, queue: queue.clone() });
    let mut state = BlockOnReturn::new();
    let mut seen = Vec::new();
    let mut exiting = false;
    let mut turn = |event: Event<Signal<u8>>, exiting: &mut bool| {
        let (event, poll) = match state.on_event(event) {
            Action::Ignore => return,
            Action::Forward(event) => (event, false),
            Action::ForwardThenPoll(event) => (event, true),
        };
        if let Event::UserEvent(value) = event {
            seen.push(value);
        }
        if poll {
            let polled = match fut.as_mut().poll(&mut Context::from_waker(&waker)) {
                Poll::Ready(output) => Some(output),
                Poll::Pending => None,
            };
            if state.on_poll(polled) {
                *exiting = true;
            }
        }
    };
    for _ in 0..iterations {
        if exiting {
            break;
        }
        let signals: Vec<Signal<u8>> = queue.0.lock().unwrap().drain(..).collect();
        for signal in signals {
            turn(Event::UserEvent(signal), &mut exiting);
        }
        turn(Event::AboutToWait, &mut exiting);
    }
    turn(Event::LoopExiting, &mut exiting);
    (state.finish(Ok(())), seen)
}

#[test]
fn a_future_that_wakes_itself_runs_to_its_end() {
    let (result, seen) = run(3, 10);
    assert!(matches!(result, BlockOnReturnResult::Value(4)));
    assert_eq!(seen, vec![3, 2, 1]);
}

#[test]
fn a_future_that_is_ready_at_once_ends_the_loop() {
    let (result, seen) = run(0, 10);
    assert!(matches!(result, BlockOnReturnResult::Value(1)));
    assert_eq!(seen, Vec::<u8>::new());
}

#[test]
fn a_loop_that_exits_first_leaves_no_value() {
    let (result, seen) = run(3, 2);
    assert!(matches!(result, BlockOnReturnResult::Exit(Ok(()))));
    assert_eq!(seen, vec![3]);
}
