//! What holds over a whole run of the loop.
//!
//! A run is the sequence of the events that the loop emitted, together with what the
//! future would answer: `answers[j]` is what a poll at the event at position `j` gives,
//! `Some` if the future returns a value there. The state machines of this crate differ
//! only in whether they also poll when the loop is exiting, so the laws speak of both:
//! `on_exit` is `true` for `BlockOnReturn`; for `BlockOn` it is `false`, and as its
//! future never returns, all answers are `None`.

use vstd::prelude::*;

#[allow(unused_imports)]
use winit::error::EventLoopError;

#[allow(unused_imports)]
use crate::block_on::BlockOn;
#[allow(unused_imports)]
use crate::event::Event;
#[allow(unused_imports)]
use crate::run_return::{conclusion, output_next, BlockOnReturn, BlockOnReturnResult};
#[allow(unused_imports)]
use crate::signal::{law_signal_holds_value, Signal};
#[allow(unused_imports)]
use crate::turn::{action_for, is_poll_point, ready_next, Action};

verus! {

/// Whether the future is ready to be polled after the events, from the first one on.
pub open spec fn ready_after<T>(events: Seq<Event<Signal<T>>>, on_exit: bool) -> bool
    decreases events.len(),
{
    if events.len() == 0 {
        true
    } else {
        ready_next(ready_after(events.drop_last(), on_exit), events.last(), on_exit)
    }
}

/// The value that the future has returned after the events, if it has.
pub open spec fn output_after<T, O>(
    events: Seq<Event<Signal<T>>>,
    answers: Seq<Option<O>>,
    on_exit: bool,
) -> Option<O>
    decreases events.len(),
{
    if events.len() == 0 {
        None
    } else {
        let before = events.drop_last();
        let output = output_after(before, answers, on_exit);
        let ready = ready_after(before, on_exit);
        if action_for(ready && output is None, events.last(), on_exit).polls() {
            output_next(output, answers[events.len() - 1])
        } else {
            output
        }
    }
}

/// What was done about the event at position `j`.
pub open spec fn action_at<T, O>(
    events: Seq<Event<Signal<T>>>,
    answers: Seq<Option<O>>,
    j: int,
    on_exit: bool,
) -> Action<T> {
    action_for(
        ready_after(events.take(j), on_exit) && output_after(events.take(j), answers, on_exit) is None,
        events[j],
        on_exit,
    )
}

/// Everything that was done, in order.
pub open spec fn actions<T, O>(
    events: Seq<Event<Signal<T>>>,
    answers: Seq<Option<O>>,
    on_exit: bool,
) -> Seq<Action<T>> {
    Seq::new(events.len(), |j: int| action_at(events, answers, j, on_exit))
}

/// The events that the handler was called with, in order.
pub open spec fn handled<T, O>(
    events: Seq<Event<Signal<T>>>,
    answers: Seq<Option<O>>,
    on_exit: bool,
) -> Seq<Event<T>> {
    actions(events, answers, on_exit).filter(|a: Action<T>| a.forwarded() is Some).map_values(
        |a: Action<T>| a.forwarded()->0,
    )
}

/// Whether the future was polled at the event at position `j`.
pub open spec fn polled_at<T, O>(
    events: Seq<Event<Signal<T>>>,
    answers: Seq<Option<O>>,
    j: int,
    on_exit: bool,
) -> bool {
    action_at(events, answers, j, on_exit).polls()
}

/// Whether the future was polled at the event at position `j` and returned a value.
pub open spec fn completed_at<T, O>(
    events: Seq<Event<Signal<T>>>,
    answers: Seq<Option<O>>,
    j: int,
    on_exit: bool,
) -> bool {
    polled_at(events, answers, j, on_exit) && answers[j] is Some
}

/// Whether the future has returned no value before position `j`.
pub open spec fn pending_until<T, O>(
    events: Seq<Event<Signal<T>>>,
    answers: Seq<Option<O>>,
    j: int,
    on_exit: bool,
) -> bool {
    forall|i: int| 0 <= i < j ==> !#[trigger] completed_at(events, answers, i, on_exit)
}

/// Whether none of the first `n` answers is a value.
pub open spec fn never_returns<O>(answers: Seq<Option<O>>, n: nat) -> bool {
    forall|j: int| 0 <= j < n ==> (#[trigger] answers[j]) is None
}

/// Whether a waker sent one of the events from position `from` up to, but not
/// including, position `to`.
pub open spec fn woken_between<T>(events: Seq<Event<Signal<T>>>, from: int, to: int) -> bool {
    exists|i: int| from <= i < to && #[trigger] events[i].is_wakeup()
}

/// Whether none of the events from position `from` up to, but not including, position
/// `to` allows a poll.
pub open spec fn no_poll_point_between<T>(
    events: Seq<Event<Signal<T>>>,
    from: int,
    to: int,
    on_exit: bool,
) -> bool {
    forall|k: int| from <= k < to ==> !is_poll_point(#[trigger] events[k], on_exit)
}

/// Whether a waker sent one of the events before position `j`, and no event since then
/// allowed a poll.
pub open spec fn wakeup_pending<T>(events: Seq<Event<Signal<T>>>, j: int, on_exit: bool) -> bool {
    exists|i: int|
        0 <= i < j && (#[trigger] events[i]).is_wakeup() && no_poll_point_between(
            events,
            i,
            j,
            on_exit,
        )
}

/// Whether a `BlockOnReturn` goes from one state to the other when it is fed the event,
/// and then the future's answer, if the action polls.
pub open spec fn is_return_turn<T, O>(
    before: BlockOnReturn<O>,
    event: Event<Signal<T>>,
    answer: Option<O>,
    after: BlockOnReturn<O>,
) -> bool {
    let action = action_for(before.ready() && before.output() is None, event, true);
    &&& after.ready() == ready_next(before.ready(), event, true)
    &&& after.output() == if action.polls() {
        output_next(before.output(), answer)
    } else {
        before.output()
    }
}

/// Whether `states` are the states of a `BlockOnReturn` that is fed the events, the
/// first one as it is made, and the future's answer after each action that polls.
pub open spec fn is_return_run<T, O>(
    states: Seq<BlockOnReturn<O>>,
    events: Seq<Event<Signal<T>>>,
    answers: Seq<Option<O>>,
) -> bool {
    &&& states.len() == events.len() + 1
    &&& states[0].ready()
    &&& states[0].output() is None
    &&& forall|j: int|
        0 <= j < events.len() ==> is_return_turn(
            #[trigger] states[j],
            events[j],
            answers[j],
            states[j + 1],
        )
}

/// Whether `states` are the states of a `BlockOn` that is fed the events, the first one
/// as it is made.
pub open spec fn is_endless_run<T>(states: Seq<BlockOn>, events: Seq<Event<Signal<T>>>) -> bool {
    &&& states.len() == events.len() + 1
    &&& states[0].ready()
    &&& forall|j: int|
        0 <= j < events.len() ==> states[j + 1].ready() == ready_next(
            (#[trigger] states[j]).ready(),
            events[j],
            false,
        )
}

/// Calling `on_event`, and then `on_poll` if the action is to poll, is one turn of a
/// run; `polling` stands for the second call.
pub proof fn law_calls_make_a_turn<T, O>(
    state: &mut BlockOnReturn<O>,
    event: Event<Signal<T>>,
    action: Action<T>,
    polling: &mut BlockOnReturn<O>,
    answer: Option<O>,
    told_to_exit: bool,
)
    requires
        call_ensures(BlockOnReturn::<O>::on_event::<T>, (state, event), action),
        action is ForwardThenPoll ==> *old(polling) == *final(state) && call_ensures(
            BlockOnReturn::<O>::on_poll,
            (polling, answer),
            told_to_exit,
        ),
    ensures
        action is ForwardThenPoll ==> is_return_turn(
            *old(state),
            event,
            answer,
            *final(polling),
        ),
        !(action is ForwardThenPoll) ==> is_return_turn(
            *old(state),
            event,
            answer,
            *final(state),
        ),
{
}

/// Over a run, a `BlockOnReturn` is in the states and takes the actions that the laws
/// speak of.
pub proof fn law_return_run<T, O>(
    states: Seq<BlockOnReturn<O>>,
    events: Seq<Event<Signal<T>>>,
    answers: Seq<Option<O>>,
)
    requires
        is_return_run(states, events, answers),
    ensures
        states.last().ready() == ready_after(events, true),
        states.last().output() == output_after(events, answers, true),
        forall|j: int|
            0 <= j < events.len() ==> action_for(
                (#[trigger] states[j]).ready() && states[j].output() is None,
                events[j],
                true,
            ) == action_at(events, answers, j, true),
{
    assert forall|j: int| 0 <= j <= events.len() implies (#[trigger] states[j]).ready()
        == ready_after(events.take(j), true) && states[j].output() == output_after(
        events.take(j),
        answers,
        true,
    ) by {
        lemma_return_run_prefix(states, events, answers, j);
    }
    assert(events.take(events.len() as int) =~= events);
}

proof fn lemma_return_run_prefix<T, O>(
    states: Seq<BlockOnReturn<O>>,
    events: Seq<Event<Signal<T>>>,
    answers: Seq<Option<O>>,
    j: int,
)
    requires
        is_return_run(states, events, answers),
        0 <= j <= events.len(),
    ensures
        states[j].ready() == ready_after(events.take(j), true),
        states[j].output() == output_after(events.take(j), answers, true),
    decreases j,
{
    if j > 0 {
        lemma_return_run_prefix(states, events, answers, j - 1);
        assert(events.take(j).drop_last() =~= events.take(j - 1));
        assert(states[j - 1 + 1] == states[j]);
    }
}

/// Over a run, a `BlockOn` is in the states and takes the actions that the laws speak
/// of, as its future never returns.
pub proof fn law_endless_run<T, O>(
    states: Seq<BlockOn>,
    events: Seq<Event<Signal<T>>>,
    answers: Seq<Option<O>>,
)
    requires
        is_endless_run(states, events),
        never_returns(answers, events.len()),
    ensures
        states.last().ready() == ready_after(events, false),
        forall|j: int|
            0 <= j < events.len() ==> action_for((#[trigger] states[j]).ready(), events[j], false)
                == action_at(events, answers, j, false),
{
    assert forall|j: int| 0 <= j <= events.len() implies (#[trigger] states[j]).ready()
        == ready_after(events.take(j), false) && output_after(
        events.take(j),
        answers,
        false,
    ) is None by {
        lemma_endless_run_prefix(states, events, j);
        lemma_never_returns(events.take(j), answers, false);
    }
    assert(events.take(events.len() as int) =~= events);
}

proof fn lemma_endless_run_prefix<T>(states: Seq<BlockOn>, events: Seq<Event<Signal<T>>>, j: int)
    requires
        is_endless_run(states, events),
        0 <= j <= events.len(),
    ensures
        states[j].ready() == ready_after(events.take(j), false),
    decreases j,
{
    if j > 0 {
        lemma_endless_run_prefix(states, events, j - 1);
        assert(events.take(j).drop_last() =~= events.take(j - 1));
        assert(states[j - 1 + 1] == states[j]);
    }
}

proof fn lemma_never_returns<T, O>(
    events: Seq<Event<Signal<T>>>,
    answers: Seq<Option<O>>,
    on_exit: bool,
)
    requires
        never_returns(answers, events.len()),
    ensures
        output_after(events, answers, on_exit) is None,
    decreases events.len(),
{
    if events.len() > 0 {
        lemma_never_returns(events.drop_last(), answers, on_exit);
        assert(answers[events.len() - 1] is None);
    }
}

proof fn lemma_actions_drop_last<T, O>(
    events: Seq<Event<Signal<T>>>,
    answers: Seq<Option<O>>,
    on_exit: bool,
)
    requires
        events.len() > 0,
    ensures
        actions(events, answers, on_exit).drop_last() == actions(
            events.drop_last(),
            answers,
            on_exit,
        ),
        actions(events, answers, on_exit).last() == action_for(
            ready_after(events.drop_last(), on_exit) && output_after(
                events.drop_last(),
                answers,
                on_exit,
            ) is None,
            events.last(),
            on_exit,
        ),
{
    let n = events.len() - 1;
    assert(events.take(n) =~= events.drop_last());
    assert forall|j: int| 0 <= j < n implies action_at(events, answers, j, on_exit) == action_at(
        events.drop_last(),
        answers,
        j,
        on_exit,
    ) by {
        assert(events.drop_last().take(j) =~= events.take(j));
    }
    assert(actions(events, answers, on_exit).drop_last() =~= actions(
        events.drop_last(),
        answers,
        on_exit,
    ));
}

/// The handler sees every event but the wakeups: in the order in which the loop
/// emitted them, each one once, and a user event with the user's own value.
pub proof fn law_handler_sees_all_but_wakeups<T, O>(
    events: Seq<Event<Signal<T>>>,
    answers: Seq<Option<O>>,
    on_exit: bool,
)
    ensures
        handled(events, answers, on_exit) == events.filter(
            |e: Event<Signal<T>>| !e.is_wakeup(),
        ).map_values(|e: Event<Signal<T>>| e.delivered()->0),
    decreases events.len(),
{
    reveal(Seq::filter);
    let expected = events.filter(|e: Event<Signal<T>>| !e.is_wakeup()).map_values(
        |e: Event<Signal<T>>| e.delivered()->0,
    );
    if events.len() > 0 {
        let last = events.last();
        let before = handled(events.drop_last(), answers, on_exit);
        law_handler_sees_all_but_wakeups(events.drop_last(), answers, on_exit);
        lemma_actions_drop_last(events, answers, on_exit);
        if last.is_wakeup() {
            assert(handled(events, answers, on_exit) =~= before);
        } else {
            assert(handled(events, answers, on_exit) =~= before.push(last.delivered()->0));
            assert(expected =~= before.push(last.delivered()->0));
        }
    }
}

/// The future is ready at position `j` if a wakeup is pending, or if no event has
/// allowed a poll yet.
proof fn lemma_ready<T>(events: Seq<Event<Signal<T>>>, j: int, on_exit: bool)
    requires
        0 <= j <= events.len(),
    ensures
        ready_after(events.take(j), on_exit) <==> no_poll_point_between(events, 0, j, on_exit)
            || wakeup_pending(events, j, on_exit),
    decreases j,
{
    if j > 0 {
        lemma_ready(events, j - 1, on_exit);
        assert(events.take(j).drop_last() =~= events.take(j - 1));
        let last = events[j - 1];
        if last.is_wakeup() {
            assert(no_poll_point_between(events, j - 1, j, on_exit));
        } else if !is_poll_point(last, on_exit) {
            assert forall|i: int| 0 <= i < j implies no_poll_point_between(events, i, j, on_exit)
                == #[trigger] no_poll_point_between(events, i, j - 1, on_exit) by {
                if no_poll_point_between(events, i, j - 1, on_exit) {
                    assert(no_poll_point_between(events, i, j, on_exit));
                }
            }
            assert(no_poll_point_between(events, 0, j, on_exit) == no_poll_point_between(
                events,
                0,
                j - 1,
                on_exit,
            ));
            if wakeup_pending(events, j, on_exit) {
                let i = choose|i: int|
                    0 <= i < j && (#[trigger] events[i]).is_wakeup() && no_poll_point_between(
                        events,
                        i,
                        j,
                        on_exit,
                    );
                assert(no_poll_point_between(events, i, j - 1, on_exit));
            }
        }
    }
}

/// No value is kept at position `j` if and only if no poll before it returned one.
proof fn lemma_pending<T, O>(
    events: Seq<Event<Signal<T>>>,
    answers: Seq<Option<O>>,
    j: int,
    on_exit: bool,
)
    requires
        0 <= j <= events.len(),
    ensures
        output_after(events.take(j), answers, on_exit) is None <==> pending_until(
            events,
            answers,
            j,
            on_exit,
        ),
    decreases j,
{
    if j > 0 {
        lemma_pending(events, answers, j - 1, on_exit);
        assert(events.take(j).drop_last() =~= events.take(j - 1));
        if output_after(events.take(j), answers, on_exit) is None {
            assert(!completed_at(events, answers, j - 1, on_exit));
        } else if pending_until(events, answers, j - 1, on_exit) {
            assert(completed_at(events, answers, j - 1, on_exit));
        }
    }
}

/// The future is polled exactly when it should be: at an event that allows a poll,
/// while it has not returned a value, if that is the first such event, or if a waker
/// sent a signal since the previous one.
pub proof fn law_polled_exactly_when_woken<T, O>(
    events: Seq<Event<Signal<T>>>,
    answers: Seq<Option<O>>,
    j: int,
    on_exit: bool,
)
    requires
        0 <= j < events.len(),
    ensures
        polled_at(events, answers, j, on_exit) <==> is_poll_point(events[j], on_exit)
            && pending_until(events, answers, j, on_exit) && (no_poll_point_between(
            events,
            0,
            j,
            on_exit,
        ) || wakeup_pending(events, j, on_exit)),
{
    lemma_ready(events, j, on_exit);
    lemma_pending(events, answers, j, on_exit);
}

/// The same, said of the events alone: the future is polled when the loop is about to
/// wait, or, if `on_exit`, is exiting, while no poll has returned a value, if that is the
/// first such event, or if a signal without a value came since the previous one. At any
/// other event it is not polled.
pub proof fn law_polled_by_events<T, O>(
    events: Seq<Event<Signal<T>>>,
    answers: Seq<Option<O>>,
    j: int,
    on_exit: bool,
)
    requires
        0 <= j < events.len(),
    ensures
        action_at(events, answers, j, on_exit) is ForwardThenPoll <==> {
            &&& events[j] is AboutToWait || (on_exit && events[j] is LoopExiting)
            &&& forall|i: int|
                0 <= i < j && answers[i] is Some ==> !(#[trigger] action_at(
                    events,
                    answers,
                    i,
                    on_exit,
                ) is ForwardThenPoll)
            &&& {
                ||| forall|k: int|
                    0 <= k < j ==> !(#[trigger] events[k] is AboutToWait) && !(on_exit
                        && events[k] is LoopExiting)
                ||| exists|i: int|
                    0 <= i < j && (#[trigger] events[i] matches Event::UserEvent(signal)
                        && signal@ is None) && forall|k: int|
                        i <= k < j ==> !(#[trigger] events[k] is AboutToWait) && !(on_exit
                            && events[k] is LoopExiting)
            }
        },
{
    law_polled_exactly_when_woken(events, answers, j, on_exit);
    if pending_until(events, answers, j, on_exit) {
        assert forall|i: int| 0 <= i < j && answers[i] is Some implies !(#[trigger] action_at(
            events,
            answers,
            i,
            on_exit,
        ) is ForwardThenPoll) by {
            assert(!completed_at(events, answers, i, on_exit));
        }
    }
    if wakeup_pending(events, j, on_exit) {
        let i = choose|i: int|
            0 <= i < j && (#[trigger] events[i]).is_wakeup() && no_poll_point_between(
                events,
                i,
                j,
                on_exit,
            );
        assert(events[i] matches Event::UserEvent(signal) && signal@ is None);
    }
    if exists|i: int|
        0 <= i < j && (#[trigger] events[i] matches Event::UserEvent(signal) && signal@ is None)
            && forall|k: int|
            i <= k < j ==> !(#[trigger] events[k] is AboutToWait) && !(on_exit
                && events[k] is LoopExiting) {
        let i = choose|i: int|
            0 <= i < j && (#[trigger] events[i] matches Event::UserEvent(signal) && signal@ is None)
                && forall|k: int|
                i <= k < j ==> !(#[trigger] events[k] is AboutToWait) && !(on_exit
                    && events[k] is LoopExiting);
        assert(events[i].is_wakeup() && no_poll_point_between(events, i, j, on_exit));
    }
}

/// An event is kept from the handler if and only if it is a user event whose signal
/// holds no value.
pub proof fn law_hidden_by_events<T, O>(
    events: Seq<Event<Signal<T>>>,
    answers: Seq<Option<O>>,
    j: int,
    on_exit: bool,
)
    requires
        0 <= j < events.len(),
    ensures
        action_at(events, answers, j, on_exit) is Ignore <==> (events[j] matches Event::UserEvent(
            signal,
        ) && signal@ is None),
{
}

/// The future is polled at the first event that allows it, without having been woken.
pub proof fn law_polled_at_first_opportunity<T, O>(
    events: Seq<Event<Signal<T>>>,
    answers: Seq<Option<O>>,
    j: int,
    on_exit: bool,
)
    requires
        0 <= j < events.len(),
        is_poll_point(events[j], on_exit),
        no_poll_point_between(events, 0, j, on_exit),
    ensures
        polled_at(events, answers, j, on_exit),
{
    assert forall|i: int| 0 <= i < j implies !#[trigger] completed_at(
        events,
        answers,
        i,
        on_exit,
    ) by {
        assert(!is_poll_point(events[i], on_exit));
    }
    law_polled_exactly_when_woken(events, answers, j, on_exit);
}

/// No wakeup is lost: once a waker has sent a signal, the next event that allows a poll
/// polls the future, unless it has returned a value.
pub proof fn law_no_wakeup_is_lost<T, O>(
    events: Seq<Event<Signal<T>>>,
    answers: Seq<Option<O>>,
    i: int,
    j: int,
    on_exit: bool,
)
    requires
        0 <= i < j < events.len(),
        events[i].is_wakeup(),
        is_poll_point(events[j], on_exit),
        no_poll_point_between(events, i, j, on_exit),
        pending_until(events, answers, j, on_exit),
    ensures
        polled_at(events, answers, j, on_exit),
{
    law_polled_exactly_when_woken(events, answers, j, on_exit);
}

/// No poll without cause: between two polls a waker sent a signal.
pub proof fn law_no_poll_unless_woken<T, O>(
    events: Seq<Event<Signal<T>>>,
    answers: Seq<Option<O>>,
    j: int,
    k: int,
    on_exit: bool,
)
    requires
        0 <= j < k < events.len(),
        polled_at(events, answers, j, on_exit),
        polled_at(events, answers, k, on_exit),
    ensures
        woken_between(events, j, k),
{
    lemma_ready(events, k, on_exit);
    assert(is_poll_point(events[j], on_exit));
    let i = choose|i: int|
        0 <= i < k && (#[trigger] events[i]).is_wakeup() && no_poll_point_between(
            events,
            i,
            k,
            on_exit,
        );
    assert(events[i].is_wakeup() && j < i);
}

/// The future is polled at most once more often than wakers sent signals.
pub proof fn law_polls_bounded_by_wakeups<T, O>(
    events: Seq<Event<Signal<T>>>,
    answers: Seq<Option<O>>,
    on_exit: bool,
)
    ensures
        actions(events, answers, on_exit).filter(|a: Action<T>| a.polls()).len() <= 1
            + events.filter(|e: Event<Signal<T>>| e.is_wakeup()).len(),
{
    lemma_polls_bounded(events, answers, on_exit);
}

proof fn lemma_polls_bounded<T, O>(
    events: Seq<Event<Signal<T>>>,
    answers: Seq<Option<O>>,
    on_exit: bool,
)
    ensures
        actions(events, answers, on_exit).filter(|a: Action<T>| a.polls()).len() + (if ready_after(
            events,
            on_exit,
        ) {
            1int
        } else {
            0int
        }) <= 1 + events.filter(|e: Event<Signal<T>>| e.is_wakeup()).len(),
    decreases events.len(),
{
    reveal(Seq::filter);
    if events.len() > 0 {
        lemma_polls_bounded(events.drop_last(), answers, on_exit);
        lemma_actions_drop_last(events, answers, on_exit);
    }
}

/// A value that the user sends through a proxy reaches the handler unchanged, at once,
/// and has no bearing on the future.
pub proof fn law_user_value_arrives_unchanged<T>(ready: bool, user: T, on_exit: bool)
    ensures
        action_for(
            ready,
            Event::UserEvent(<Signal<T> as vstd::std_specs::convert::FromSpec<T>>::from_spec(user)),
            on_exit,
        ) == Action::Forward(Event::UserEvent(user)),
        ready_next(
            ready,
            Event::UserEvent(<Signal<T> as vstd::std_specs::convert::FromSpec<T>>::from_spec(user)),
            on_exit,
        ) == ready,
{
    law_signal_holds_value(user);
}

/// Signals of wakers that come in a row count as one: whatever follows, everything is
/// done as if the second one had not been sent. (`unused` is the future's answer at the
/// second one, where it is not polled.)
pub proof fn law_wakeups_in_a_row_count_once<T, O>(
    before: Seq<Event<Signal<T>>>,
    first: Event<Signal<T>>,
    second: Event<Signal<T>>,
    after: Seq<Event<Signal<T>>>,
    answers: Seq<Option<O>>,
    unused: Option<O>,
    on_exit: bool,
)
    requires
        first.is_wakeup(),
        second.is_wakeup(),
        answers.len() >= before.len() + 1 + after.len(),
    ensures
        ready_after(before.push(first).push(second) + after, on_exit) == ready_after(
            before.push(first) + after,
            on_exit,
        ),
        output_after(
            before.push(first).push(second) + after,
            answers.insert(before.len() as int + 1, unused),
            on_exit,
        ) == output_after(before.push(first) + after, answers, on_exit),
        actions(
            before.push(first).push(second) + after,
            answers.insert(before.len() as int + 1, unused),
            on_exit,
        ) == actions(before.push(first) + after, answers, on_exit).insert(
            before.len() as int,
            Action::Ignore,
        ),
    decreases after.len(),
{
    let once = before.push(first) + after;
    let twice = before.push(first).push(second) + after;
    let shifted = answers.insert(before.len() as int + 1, unused);
    if after.len() == 0 {
        assert(once =~= before.push(first));
        assert(twice =~= once.push(second));
        assert(once.drop_last() =~= before);
        assert(twice.drop_last() =~= once);
        lemma_same_answers(once, answers, shifted, on_exit);
    } else {
        let rest = after.drop_last();
        law_wakeups_in_a_row_count_once(before, first, second, rest, answers, unused, on_exit);
        assert(once.drop_last() =~= before.push(first) + rest);
        assert(twice.drop_last() =~= before.push(first).push(second) + rest);
        assert(shifted[twice.len() - 1] == answers[once.len() - 1]);
    }
    lemma_actions_drop_last(once, answers, on_exit);
    lemma_actions_drop_last(twice, shifted, on_exit);
    let done_once = actions(once, answers, on_exit);
    let done_twice = actions(twice, shifted, on_exit);
    assert(done_once =~= done_once.drop_last().push(done_once.last()));
    assert(done_twice =~= done_twice.drop_last().push(done_twice.last()));
    assert(done_twice =~= done_once.insert(before.len() as int, Action::Ignore));
}

/// Only the answers up to the last event matter.
proof fn lemma_same_answers<T, O>(
    events: Seq<Event<Signal<T>>>,
    answers: Seq<Option<O>>,
    others: Seq<Option<O>>,
    on_exit: bool,
)
    requires
        forall|j: int| 0 <= j < events.len() ==> #[trigger] answers[j] == others[j],
    ensures
        output_after(events, answers, on_exit) == output_after(events, others, on_exit),
        actions(events, answers, on_exit) == actions(events, others, on_exit),
    decreases events.len(),
{
    let done = actions(events, answers, on_exit);
    let redone = actions(events, others, on_exit);
    if events.len() > 0 {
        lemma_same_answers(events.drop_last(), answers, others, on_exit);
        lemma_actions_drop_last(events, answers, on_exit);
        lemma_actions_drop_last(events, others, on_exit);
        assert(answers[events.len() - 1] == others[events.len() - 1]);
        assert(done =~= done.drop_last().push(done.last()));
        assert(redone =~= redone.drop_last().push(redone.last()));
    }
    assert(done =~= redone);
}

/// Blocking on a future that never returns comes to the same in both forms: the handler
/// sees the same events, the future is polled at the same times when the loop is about
/// to wait, and the caller gets how the loop exited. The returning form polls once more
/// at most: at the exit of the loop, which is its last event.
pub proof fn law_same_but_for_exit<T, O>(
    events: Seq<Event<Signal<T>>>,
    answers: Seq<Option<O>>,
    exit: Result<(), EventLoopError>,
)
    requires
        never_returns(answers, events.len()),
        forall|j: int| 0 <= j < events.len() - 1 ==> !(#[trigger] events[j] is LoopExiting),
    ensures
        handled(events, answers, true) == handled(events, answers, false),
        forall|j: int|
            0 <= j < events.len() && !(events[j] is LoopExiting) ==> action_at(
                events,
                answers,
                j,
                true,
            ) == #[trigger] action_at(events, answers, j, false),
        forall|j: int|
            0 <= j < events.len() && #[trigger] polled_at(events, answers, j, false) ==> polled_at(
                events,
                answers,
                j,
                true,
            ),
        forall|j: int|
            0 <= j < events.len() && #[trigger] polled_at(events, answers, j, true) && !polled_at(
                events,
                answers,
                j,
                false,
            ) ==> j == events.len() - 1 && events[j] is LoopExiting,
        conclusion(output_after(events, answers, true), exit) == BlockOnReturnResult::<O>::Exit(
            exit,
        ),
{
    law_handler_sees_all_but_wakeups(events, answers, true);
    law_handler_sees_all_but_wakeups(events, answers, false);
    lemma_never_returns(events, answers, true);
    assert forall|j: int| 0 <= j < events.len() implies ready_after(#[trigger] events.take(j), true)
        == ready_after(events.take(j), false) && output_after(
        events.take(j),
        answers,
        true,
    ) is None && output_after(events.take(j), answers, false) is None by {
        lemma_same_readiness(events.take(j));
        lemma_never_returns(events.take(j), answers, true);
        lemma_never_returns(events.take(j), answers, false);
    }
}

proof fn lemma_same_readiness<T>(events: Seq<Event<Signal<T>>>)
    requires
        forall|j: int| 0 <= j < events.len() ==> !(#[trigger] events[j] is LoopExiting),
    ensures
        ready_after(events, true) == ready_after(events, false),
    decreases events.len(),
{
    if events.len() > 0 {
        lemma_same_readiness(events.drop_last());
        assert(!(events[events.len() - 1] is LoopExiting));
    }
}

/// The caller gets how the loop exited if and only if no poll ever returned a value.
pub proof fn law_exit_iff_never_completed<T, O>(
    events: Seq<Event<Signal<T>>>,
    answers: Seq<Option<O>>,
    exit: Result<(), EventLoopError>,
)
    ensures
        conclusion(output_after(events, answers, true), exit) == BlockOnReturnResult::<O>::Exit(
            exit,
        ) <==> pending_until(events, answers, events.len() as int, true),
{
    assert(events.take(events.len() as int) =~= events);
    lemma_pending(events, answers, events.len() as int, true);
}

/// A future that has returned a value is never polled again, whatever comes after, and
/// the caller gets that value.
pub proof fn law_first_value_is_final<T, O>(
    events: Seq<Event<Signal<T>>>,
    answers: Seq<Option<O>>,
    j: int,
    exit: Result<(), EventLoopError>,
)
    requires
        0 <= j < events.len(),
        completed_at(events, answers, j, true),
    ensures
        forall|k: int| j < k < events.len() ==> !#[trigger] polled_at(events, answers, k, true),
        conclusion(output_after(events, answers, true), exit) == BlockOnReturnResult::Value(
            answers[j]->0,
        ),
{
    assert forall|k: int| j < k < events.len() implies !#[trigger] polled_at(
        events,
        answers,
        k,
        true,
    ) by {
        lemma_value_kept(events, answers, j, k);
    }
    assert(events.take(events.len() as int) =~= events);
    lemma_value_kept(events, answers, j, events.len() as int);
}

proof fn lemma_value_kept<T, O>(
    events: Seq<Event<Signal<T>>>,
    answers: Seq<Option<O>>,
    j: int,
    k: int,
)
    requires
        0 <= j < k <= events.len(),
        completed_at(events, answers, j, true),
    ensures
        output_after(events.take(k), answers, true) == answers[j],
    decreases k,
{
    assert(events.take(k).drop_last() =~= events.take(k - 1));
    if j < k - 1 {
        lemma_value_kept(events, answers, j, k - 1);
    }
}

} // verus!
