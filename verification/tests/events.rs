use winit::event::{StartCause, WindowEvent};
use winit::event_loop::EventLoopBuilder;
use winit::window::WindowId;
use winit_block_on::{Event, EventLoopBuilderExt, Signal};

fn close_request<T>() -> Event<T> {
    Event::WindowEvent {
        window_id: WindowId::from(7u64),
        event: WindowEvent::CloseRequested,
    }
}

#[test]
fn a_builder_for_signals_can_be_made() {
    let _builder: EventLoopBuilder<Signal<u8>> = EventLoopBuilder::new_block_on();
}

#[test]
fn a_signal_delivers_the_value_it_was_made_from() {
    assert_eq!(Event::UserEvent(Signal::from(5u8)).deliver(), Some(Event::UserEvent(5u8)));
    let signal: Signal<&str> = "hello".into();
    assert_eq!(Event::UserEvent(signal).deliver(), Some(Event::UserEvent("hello")));
}

#[test]
fn a_wakeup_is_not_delivered() {
    assert_eq!(Event::UserEvent(Signal::<u8>::wakeup()).deliver(), None);
}

#[test]
fn signals_tell_what_they_hold() {
    assert_eq!(format!("{:?}", Signal::from(5u8)), "Signal(User(5))");
    assert_eq!(format!("{:?}", Signal::<u8>::wakeup()), "Signal(Wakeup)");
}

#[test]
fn other_events_are_delivered_as_they_came() {
    let events: Vec<(Event<Signal<u8>>, Event<u8>)> = vec![
        (Event::NewEvents(StartCause::Poll), Event::NewEvents(StartCause::Poll)),
        (close_request(), close_request()),
        (Event::Suspended, Event::Suspended),
        (Event::Resumed, Event::Resumed),
        (Event::AboutToWait, Event::AboutToWait),
        (Event::LoopExiting, Event::LoopExiting),
        (Event::MemoryWarning, Event::MemoryWarning),
    ];
    for (event, seen) in events {
        assert_eq!(event.deliver(), Some(seen));
    }
}

#[test]
fn only_a_user_event_keeps_its_user_type() {
    assert_eq!(Event::UserEvent(5u8).map_nonuser_event::<char>(), Err(Event::UserEvent(5u8)));
    assert_eq!(
        Event::<u8>::NewEvents(StartCause::Init).map_nonuser_event::<char>(),
        Ok(Event::NewEvents(StartCause::Init))
    );
    assert_eq!(close_request::<u8>().map_nonuser_event::<char>(), Ok(close_request()));
    assert_eq!(Event::<u8>::Suspended.map_nonuser_event::<char>(), Ok(Event::Suspended));
    assert_eq!(Event::<u8>::Resumed.map_nonuser_event::<char>(), Ok(Event::Resumed));
    assert_eq!(Event::<u8>::AboutToWait.map_nonuser_event::<char>(), Ok(Event::AboutToWait));
    assert_eq!(Event::<u8>::LoopExiting.map_nonuser_event::<char>(), Ok(Event::LoopExiting));
    assert_eq!(Event::<u8>::MemoryWarning.map_nonuser_event::<char>(), Ok(Event::MemoryWarning));
}
