use winit::error::EventLoopError;
use winit::event::StartCause;
use winit_block_on::{Action, BlockOn, BlockOnReturn, BlockOnReturnResult, Event, Signal};

fn wakeup() -> Event<Signal<u8>> {
    Event::UserEvent(Signal::wakeup())
}

fn user(value: u8) -> Event<Signal<u8>> {
    Event::UserEvent(Signal::from(value))
}

/// What `BlockOn` does about the events.
fn block_on(events: Vec<Event<Signal<u8>>>) -> Vec<Action<u8>> {
    let mut state = BlockOn::new();
    events.into_iter().map(|event| state.on_event(event)).collect()
}

/// What `BlockOnReturn` does about the events, with a future that is always pending.
fn block_on_return(events: Vec<Event<Signal<u8>>>) -> Vec<Action<u8>> {
    let mut state = BlockOnReturn::<()>::new();
    events
        .into_iter()
        .map(|event| {
            let action = state.on_event(event);
            if let Action::ForwardThenPoll(_) = action {
                assert!(!state.on_poll(None));
            }
            action
        })
        .collect()
}

/// The events that the handler is called with.
fn handled(actions: Vec<Action<u8>>) -> Vec<Event<u8>> {
    actions
        .into_iter()
        .filter_map(|action| match action {
            Action::Ignore => None,
            Action::Forward(event) => Some(event),
            Action::ForwardThenPoll(event) => Some(event),
        })
        .collect()
}

#[test]
fn the_future_is_polled_at_the_first_opportunity() {
    let expected = vec![
        Action::Forward(Event::NewEvents(StartCause::Init)),
        Action::Forward(Event::Resumed),
        Action::ForwardThenPoll(Event::AboutToWait),
    ];
    let events = || vec![Event::NewEvents(StartCause::Init), Event::Resumed, Event::AboutToWait];
    assert_eq!(block_on(events()), expected);
    assert_eq!(block_on_return(events()), expected);
}

#[test]
fn the_future_is_not_polled_again_unless_woken() {
    let expected = vec![
        Action::ForwardThenPoll(Event::AboutToWait),
        Action::Forward(Event::AboutToWait),
        Action::Forward(Event::UserEvent(1)),
        Action::Forward(Event::AboutToWait),
    ];
    let events = || vec![Event::AboutToWait, Event::AboutToWait, user(1), Event::AboutToWait];
    assert_eq!(block_on(events()), expected);
    assert_eq!(block_on_return(events()), expected);
}

#[test]
fn a_wakeup_is_never_lost() {
    let expected = vec![
        Action::ForwardThenPoll(Event::AboutToWait),
        Action::Ignore,
        Action::Forward(Event::UserEvent(2)),
        Action::Forward(Event::Suspended),
        Action::ForwardThenPoll(Event::AboutToWait),
        Action::Forward(Event::AboutToWait),
    ];
    let events = || {
        vec![
            Event::AboutToWait,
            wakeup(),
            user(2),
            Event::Suspended,
            Event::AboutToWait,
            Event::AboutToWait,
        ]
    };
    assert_eq!(block_on(events()), expected);
    assert_eq!(block_on_return(events()), expected);
}

#[test]
fn wakeups_in_a_row_count_once() {
    let once = block_on(vec![Event::AboutToWait, wakeup(), Event::AboutToWait, Event::AboutToWait]);
    let mut twice = block_on(vec![
        Event::AboutToWait,
        wakeup(),
        wakeup(),
        Event::AboutToWait,
        Event::AboutToWait,
    ]);
    assert_eq!(twice.remove(1), Action::Ignore);
    assert_eq!(once, twice);
}

#[test]
fn polls_are_bounded_by_wakeups() {
    let actions = block_on_return(vec![
        wakeup(),
        Event::AboutToWait,
        Event::AboutToWait,
        wakeup(),
        wakeup(),
        Event::AboutToWait,
        Event::LoopExiting,
    ]);
    let polls = actions.iter().filter(|a| matches!(a, Action::ForwardThenPoll(_))).count();
    assert_eq!(polls, 2);
}

#[test]
fn the_handler_sees_everything_but_wakeups_in_order() {
    let events = || {
        vec![
            Event::NewEvents(StartCause::Init),
            user(1),
            wakeup(),
            user(2),
            Event::AboutToWait,
            wakeup(),
            Event::MemoryWarning,
            Event::LoopExiting,
        ]
    };
    let expected = vec![
        Event::NewEvents(StartCause::Init),
        Event::UserEvent(1),
        Event::UserEvent(2),
        Event::AboutToWait,
        Event::MemoryWarning,
        Event::LoopExiting,
    ];
    assert_eq!(handled(block_on(events())), expected);
    assert_eq!(handled(block_on_return(events())), expected);
}

#[test]
fn only_a_returning_future_is_polled_when_the_loop_exits() {
    assert_eq!(block_on(vec![Event::LoopExiting]), vec![Action::Forward(Event::LoopExiting)]);
    assert_eq!(
        block_on_return(vec![Event::LoopExiting]),
        vec![Action::ForwardThenPoll(Event::LoopExiting)]
    );
}

#[test]
fn a_pending_future_leaves_the_exit_of_the_loop() {
    let mut state = BlockOnReturn::<u8>::new();
    assert_eq!(
        state.on_event(Event::<Signal<u8>>::AboutToWait),
        Action::ForwardThenPoll(Event::AboutToWait)
    );
    assert!(!state.on_poll(None));
    assert!(matches!(state.finish(Ok(())), BlockOnReturnResult::Exit(Ok(()))));

    let state = BlockOnReturn::<u8>::new();
    assert!(matches!(
        state.finish(Err(EventLoopError::ExitFailure(3))),
        BlockOnReturnResult::Exit(Err(EventLoopError::ExitFailure(3)))
    ));
}

#[test]
fn a_completed_future_asks_for_the_exit_and_leaves_its_value() {
    let mut state = BlockOnReturn::new();
    assert_eq!(
        state.on_event(Event::<Signal<u8>>::AboutToWait),
        Action::ForwardThenPoll(Event::AboutToWait)
    );
    assert!(state.on_poll(Some("done")));
    assert_eq!(
        state.on_event(Event::<Signal<u8>>::LoopExiting),
        Action::Forward(Event::LoopExiting)
    );
    assert!(matches!(
        state.finish(Err(EventLoopError::ExitFailure(3))),
        BlockOnReturnResult::Value("done")
    ));
}

#[test]
fn a_completed_future_is_not_polled_again_even_if_woken() {
    let mut state = BlockOnReturn::new();
    assert_eq!(
        state.on_event(Event::<Signal<u8>>::AboutToWait),
        Action::ForwardThenPoll(Event::AboutToWait)
    );
    assert!(state.on_poll(Some(1)));
    assert_eq!(state.on_event(wakeup()), Action::Ignore);
    assert_eq!(
        state.on_event(Event::<Signal<u8>>::AboutToWait),
        Action::Forward(Event::AboutToWait)
    );
    assert_eq!(state.on_event(wakeup()), Action::Ignore);
    assert_eq!(
        state.on_event(Event::<Signal<u8>>::LoopExiting),
        Action::Forward(Event::LoopExiting)
    );
    assert!(matches!(state.finish(Ok(())), BlockOnReturnResult::Value(1)));
}

#[test]
fn the_first_value_stays() {
    let mut state = BlockOnReturn::new();
    assert!(state.on_poll(Some(1)));
    assert!(state.on_poll(Some(2)));
    assert!(!state.on_poll(None));
    assert!(matches!(state.finish(Ok(())), BlockOnReturnResult::Value(1)));
}

#[test]
fn both_forms_agree_but_for_a_poll_at_the_exit() {
    let events = || {
        vec![Event::Resumed, Event::AboutToWait, user(4), wakeup(), Event::LoopExiting]
    };
    let mut endless = block_on(events());
    let mut returning = block_on_return(events());
    assert_eq!(endless.pop(), Some(Action::Forward(Event::LoopExiting)));
    assert_eq!(returning.pop(), Some(Action::ForwardThenPoll(Event::LoopExiting)));
    assert_eq!(endless, returning);
    assert!(matches!(
        BlockOnReturn::<u8>::new().finish(Err(EventLoopError::AlreadyRunning)),
        BlockOnReturnResult::Exit(Err(EventLoopError::AlreadyRunning))
    ));
}

#[test]
fn results_tell_what_they_hold() {
    assert_eq!(format!("{:?}", BlockOnReturnResult::Value(5)), "Value(5)");
    assert_eq!(format!("{:?}", BlockOnReturn::<u8>::new().finish(Ok(()))), "Exit(Ok(()))");
}
