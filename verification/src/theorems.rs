//! What holds of the timer and of the loop whatever the requests and their timing.
//!
//! Each theorem is stated over the mathematical values that the contracts of
//! [`crate::timer::DeadlineTimer`] and [`crate::event_loop::EventLoop`] speak of.
use crate::event_loop::{requested, ExtensionRequest, LoopAction, LoopEvent, LoopOutcome, LoopView};
use crate::timer::{total, TimerView};
use vstd::prelude::*;

verus! {

/// Extensions add up: after any sequence of amounts the deadline is the one
/// before plus their sum, and nothing else about the timer has changed.
pub proof fn extensions_add_up(timer: TimerView, amounts: Seq<u64>)
    ensures
        timer.extend_all(amounts) == (TimerView {
            deadline: timer.deadline + total(amounts),
            ..timer
        }),
    decreases amounts.len(),
{
    if amounts.len() > 0 {
        extensions_add_up(timer, amounts.drop_last());
    }
}

/// A timer created at `start` for `initial_duration`, after any sequence of
/// extensions, fires at `start + initial_duration` plus the sum of the amounts.
pub proof fn deadline_is_start_plus_extensions(
    start: nat,
    initial_duration: nat,
    amounts: Seq<u64>,
)
    ensures
        TimerView::started(start, initial_duration).extend_all(amounts).deadline == start
            + initial_duration + total(amounts),
{
    extensions_add_up(TimerView::started(start, initial_duration), amounts);
}

/// An extension by zero is no extension: the timer is as it was.
pub proof fn zero_extension_keeps_timer(timer: TimerView)
    ensures
        timer.extend(0) == timer,
{
}

/// An extension never moves the deadline back, and one by a positive amount
/// moves it forward.
pub proof fn extension_moves_deadline_forward(timer: TimerView, amount: nat)
    ensures
        timer.extend(amount).deadline >= timer.deadline,
        amount > 0 ==> timer.extend(amount).deadline > timer.deadline,
{
}

/// Every step keeps what holds of every loop.
pub proof fn step_keeps_invariant(lp: LoopView, event: LoopEvent)
    requires
        lp.inv(),
        lp.accepts(event),
    ensures
        lp.next(event).inv(),
{
}

/// Firing is final: a loop that has fired drops every event and stays as it is.
pub proof fn fired_is_terminal(lp: LoopView, event: LoopEvent)
    requires
        lp.state is Fired,
    ensures
        lp.next(event) == lp,
        lp.action(event) == LoopAction::Ignore,
{
}

/// Firing is final for good: no sequence of events changes a loop that has
/// fired. Requests that were queued when it fired have no effect.
pub proof fn fired_stays_fired(lp: LoopView, events: Seq<LoopEvent>)
    requires
        lp.state is Fired,
    ensures
        lp.run(events) == lp,
    decreases events.len(),
{
    if events.len() > 0 {
        fired_stays_fired(lp, events.drop_last());
    }
}

/// A loop that is running after a sequence of events was running before each
/// of them.
pub proof fn running_after_means_running_before(lp: LoopView, events: Seq<LoopEvent>)
    requires
        lp.run(events).state is Running,
    ensures
        lp.state is Running,
        events.len() > 0 ==> lp.run(events.drop_last()).state is Running,
    decreases events.len(),
{
    if events.len() > 0 {
        let before = lp.run(events.drop_last());
        assert(before.state is Running) by {
            if before.state is Fired {
                fired_is_terminal(before, events.last());
            }
        }
        running_after_means_running_before(lp, events.drop_last());
    }
}

/// While the loop runs, its deadline is the one it began with plus the sum of
/// the requests it has taken. Neither the moments at which the requests came,
/// nor what came between them, has any part in it.
pub proof fn running_deadline_is_sum_of_requests(lp: LoopView, events: Seq<LoopEvent>)
    requires
        lp.run(events).state is Running,
    ensures
        lp.run(events).timer.deadline == lp.timer.deadline + requested(events),
        lp.run(events).timer.base_duration == lp.timer.base_duration,
        lp.run(events).start == lp.start,
    decreases events.len(),
{
    if events.len() > 0 {
        running_after_means_running_before(lp, events);
        running_deadline_is_sum_of_requests(lp, events.drop_last());
    }
}

/// A loop started at `start` for `initial_duration` and still running has its
/// deadline at `start + initial_duration` plus the sum of the requests it has
/// taken, whenever they came.
pub proof fn running_deadline_from_start(
    start: nat,
    initial_duration: nat,
    events: Seq<LoopEvent>,
)
    requires
        LoopView::started(start, initial_duration).run(events).state is Running,
    ensures
        LoopView::started(start, initial_duration).run(events).timer.deadline == start
            + initial_duration + requested(events),
{
    running_deadline_is_sum_of_requests(LoopView::started(start, initial_duration), events);
}

/// The deadline of a loop never moves back.
pub proof fn deadline_never_moves_back(lp: LoopView, events: Seq<LoopEvent>)
    ensures
        lp.run(events).timer.deadline >= lp.timer.deadline,
    decreases events.len(),
{
    if events.len() > 0 {
        deadline_never_moves_back(lp, events.drop_last());
    }
}

/// A running loop fires on the first return of its wait at or after the
/// deadline, not before, and reports the time since its start: the time from
/// start to deadline, and however late the wait returned on top of it.
pub proof fn fires_at_deadline(lp: LoopView, now: u64)
    requires
        lp.inv(),
        lp.state is Running,
    ensures
        now < lp.timer.deadline ==> {
            &&& lp.next(LoopEvent::TimerElapsed { now }) == lp
            &&& lp.action(LoopEvent::TimerElapsed { now }) == (LoopAction::Wait {
                deadline: lp.timer.deadline as u64,
                listening: lp.listening,
            })
        },
        now >= lp.timer.deadline ==> {
            &&& lp.next(LoopEvent::TimerElapsed { now }).state is Fired
            &&& lp.next(LoopEvent::TimerElapsed { now }).timer.deadline == lp.timer.deadline
            &&& lp.action(LoopEvent::TimerElapsed { now }) matches LoopAction::Report(outcome)
            &&& outcome.elapsed == (lp.timer.deadline - lp.start) + (now - lp.timer.deadline)
        },
{
}

/// With no request at all, a loop started at `start` for `initial_duration`
/// fires when its wait returns at or after `start + initial_duration`, and
/// reports `initial_duration` plus however late that was.
pub proof fn fires_after_initial_duration_without_requests(
    start: u64,
    initial_duration: u64,
    now: u64,
)
    requires
        start + initial_duration <= now,
    ensures
        ({
            let lp = LoopView::started(start as nat, initial_duration as nat);
            &&& lp.next(LoopEvent::TimerElapsed { now }).state is Fired
            &&& lp.action(LoopEvent::TimerElapsed { now }) matches LoopAction::Report(outcome)
            &&& outcome.elapsed == initial_duration + (now - (start + initial_duration))
        }),
{
    fires_at_deadline(LoopView::started(start as nat, initial_duration as nat), now);
}

/// A request that comes once the loop has fired does not bring the timer back:
/// the loop stays fired and its deadline stays where it was.
pub proof fn late_request_is_dropped(lp: LoopView, now: u64, request: ExtensionRequest)
    requires
        lp.state is Running,
        now >= lp.timer.deadline,
    ensures
        ({
            let fired = lp.next(LoopEvent::TimerElapsed { now });
            &&& fired.state is Fired
            &&& fired.next(LoopEvent::Extension(request)) == fired
            &&& fired.action(LoopEvent::Extension(request)) == LoopAction::Ignore
        }),
{
}

/// The closing of the queue stops nothing but the listening: the loop runs on
/// with its deadline where it was, waits for the timer alone, and fires as it
/// would have.
pub proof fn closed_channel_still_fires(lp: LoopView, now: u64)
    requires
        lp.inv(),
        lp.state is Running,
    ensures
        ({
            let closed = lp.next(LoopEvent::ChannelClosed);
            &&& closed == LoopView { listening: false, ..lp }
            &&& lp.action(LoopEvent::ChannelClosed) == (LoopAction::Wait {
                deadline: lp.timer.deadline as u64,
                listening: false,
            })
            &&& now >= lp.timer.deadline ==> {
                &&& closed.next(LoopEvent::TimerElapsed { now }).state is Fired
                &&& closed.action(LoopEvent::TimerElapsed { now }) == LoopAction::Report(
                    LoopOutcome { elapsed: (now - lp.start) as u64 },
                )
            }
        }),
{
}

/// A producer that sends nothing and goes away does not keep the loop from
/// firing at `start + initial_duration`.
pub proof fn fires_after_initial_duration_on_closed_channel(
    start: u64,
    initial_duration: u64,
)
    requires
        start + initial_duration <= u64::MAX,
    ensures
        ({
            let closed = LoopView::started(start as nat, initial_duration as nat).next(
                LoopEvent::ChannelClosed,
            );
            let now = (start + initial_duration) as u64;
            &&& closed.state is Running
            &&& closed.next(LoopEvent::TimerElapsed { now }).state is Fired
            &&& closed.action(LoopEvent::TimerElapsed { now }) == LoopAction::Report(
                LoopOutcome { elapsed: initial_duration },
            )
        }),
{
}

/// A request for zero changes nothing: the loop is as it was and waits on for
/// the same deadline, so it fires neither sooner nor later.
pub proof fn zero_request_is_noop(lp: LoopView)
    requires
        lp.inv(),
    ensures
        lp.next(LoopEvent::Extension(ExtensionRequest { amount: 0 })) == lp,
        lp.state is Running ==> lp.action(LoopEvent::Extension(ExtensionRequest { amount: 0 }))
            == (LoopAction::Wait { deadline: lp.timer.deadline as u64, listening: lp.listening }),
{
}

/// The loop reports exactly when it fires: on the one step that takes it from
/// running to fired, and on no other.
pub proof fn reports_exactly_when_firing(lp: LoopView, event: LoopEvent)
    ensures
        lp.action(event) is Report <==> lp.state is Running && lp.next(event).state is Fired,
{
}

} // verus!
