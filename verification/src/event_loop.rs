//! The control loop that races a state's timeout against extension requests.
//!
//! The loop is a state machine. Its driver waits, at the same time, for the next
//! request on the inbound queue and for the deadline; whichever comes first it
//! hands to [`EventLoop::step`] as a [`LoopEvent`], and then does what the
//! returned [`LoopAction`] says. Where both are ready at once the driver picks
//! either: the order in which it hands them over is the order that counts.
use crate::timer::{State, TimerView, WaitStatus};
use vstd::prelude::*;

verus! {

/// A request to push the deadline `amount` time units further.
#[derive(Clone, Copy, Debug, PartialEq, Eq, Structural)]
pub struct ExtensionRequest {
    pub amount: u64,
}

/// What the loop reports when its timer fires.
#[derive(Clone, Copy, Debug, PartialEq, Eq, Structural)]
pub struct LoopOutcome {
    /// The time from the start of the loop to the firing, in whole time units.
    pub elapsed: u64,
}

/// Where the loop stands.
#[derive(Clone, Copy, Debug, PartialEq, Eq, Structural)]
pub enum LoopState {
    /// The timer is pending and requests are honoured.
    Running,
    /// The timer has fired. Nothing leads out of this state.
    Fired,
}

/// What the driver saw happen.
#[derive(Clone, Copy, Debug, PartialEq, Eq, Structural)]
pub enum LoopEvent {
    /// The next request came off the inbound queue.
    Extension(ExtensionRequest),
    /// The inbound queue is empty and its last sender is gone.
    ChannelClosed,
    /// The wait on the timer returned, at `now` on the driver's clock.
    TimerElapsed { now: u64 },
}

/// What the driver is to do next.
#[derive(Clone, Copy, Debug, PartialEq, Eq, Structural)]
pub enum LoopAction {
    /// Go on waiting for `deadline`, and, if `listening`, for the next request
    /// as well.
    Wait { deadline: u64, listening: bool },
    /// The timer fired: report the outcome and stop.
    Report(LoopOutcome),
    /// The loop had stopped before: drop the event.
    Ignore,
}

/// The loop as a mathematical value.
pub struct LoopView {
    /// The point in time from which elapsed time is counted.
    pub start: nat,
    /// The timer of the state that the loop drives.
    pub timer: TimerView,
    pub state: LoopState,
    /// Whether the inbound queue can still deliver a request.
    pub listening: bool,
}

impl LoopView {
    /// The loop that was started at `start` around a timer created at the same
    /// time to fire `initial_duration` later.
    pub open spec fn started(start: nat, initial_duration: nat) -> LoopView {
        LoopView {
            start,
            timer: TimerView::started(start, initial_duration),
            state: LoopState::Running,
            listening: true,
        }
    }

    /// What holds of every loop: it runs exactly as long as its timer is armed,
    /// its deadline does not lie before its start, and its times fit in `u64`.
    pub open spec fn inv(self) -> bool {
        &&& self.state is Running <==> self.timer.armed
        &&& self.start <= self.timer.deadline <= u64::MAX
    }

    /// Whether the loop can take `event`: a request must not push the deadline
    /// beyond what `u64` holds.
    pub open spec fn accepts(self, event: LoopEvent) -> bool {
        self.state is Running ==> (event matches LoopEvent::Extension(request)
            ==> self.timer.deadline + request.amount <= u64::MAX)
    }

    /// The loop after `event`.
    pub open spec fn next(self, event: LoopEvent) -> LoopView {
        match self.state {
            LoopState::Fired => self,
            LoopState::Running => match event {
                LoopEvent::Extension(request) => LoopView {
                    timer: self.timer.extend(request.amount as nat),
                    ..self
                },
                LoopEvent::ChannelClosed => LoopView { listening: false, ..self },
                LoopEvent::TimerElapsed { now } => if self.timer.reached(now as nat) {
                    LoopView {
                        timer: self.timer.wait(now as nat),
                        state: LoopState::Fired,
                        ..self
                    }
                } else {
                    self
                },
            },
        }
    }

    /// What the loop tells its driver on `event`.
    pub open spec fn action(self, event: LoopEvent) -> LoopAction {
        match self.state {
            LoopState::Fired => LoopAction::Ignore,
            LoopState::Running => match event {
                LoopEvent::TimerElapsed { now } if self.timer.reached(now as nat) => {
                    LoopAction::Report(LoopOutcome { elapsed: (now - self.start) as u64 })
                },
                _ => LoopAction::Wait {
                    deadline: self.next(event).timer.deadline as u64,
                    listening: self.next(event).listening,
                },
            },
        }
    }

    /// The loop after each of `events` in turn, first to last.
    pub open spec fn run(self, events: Seq<LoopEvent>) -> LoopView
        decreases events.len(),
    {
        if events.len() == 0 {
            self
        } else {
            self.run(events.drop_last()).next(events.last())
        }
    }
}

/// The sum of the amounts of the requests among `events`.
pub open spec fn requested(events: Seq<LoopEvent>) -> nat
    decreases events.len(),
{
    if events.len() == 0 {
        0
    } else {
        requested(events.drop_last()) + match events.last() {
            LoopEvent::Extension(request) => request.amount as nat,
            _ => 0,
        }
    }
}

/// The control loop around one state `S` of the timed process.
#[derive(Debug)]
pub struct EventLoop<S: State> {
    start: u64,
    timed: S,
    state: LoopState,
    listening: bool,
}

impl<S: State> View for EventLoop<S> {
    type V = LoopView;

    closed spec fn view(&self) -> LoopView {
        LoopView {
            start: self.start as nat,
            timer: self.timed.timer(),
            state: self.state,
            listening: self.listening,
        }
    }
}

impl<S: State> EventLoop<S> {
    /// Starts the loop at `start` around `timed`, whose timer is pending. The
    /// loop is running from here on and listens for requests.
    pub fn new(start: u64, timed: S) -> (event_loop: EventLoop<S>)
        requires
            timed.timer().armed,
            start <= timed.timer().deadline,
        ensures
            event_loop@ == (LoopView {
                start: start as nat,
                timer: timed.timer(),
                state: LoopState::Running,
                listening: true,
            }),
            event_loop@.inv(),
    {
        proof {
            timed.deadline_fits();
        }
        EventLoop { start, timed, state: LoopState::Running, listening: true }
    }

    /// Whether `event` can be handed to [`EventLoop::step`].
    pub fn accepts(&self, event: &LoopEvent) -> (accepted: bool)
        ensures
            accepted == self@.accepts(*event),
    {
        match (self.state, event) {
            (LoopState::Running, LoopEvent::Extension(request)) => {
                request.amount <= u64::MAX - self.timed.deadline()
            },
            _ => true,
        }
    }

    /// Takes one event and says what the driver is to do next.
    ///
    /// While running: a request pushes the deadline further and the loop waits
    /// on; the closing of the queue ends the listening and nothing else, so the
    /// loop waits on for the timer alone; the timer's wait returning at or after
    /// the deadline fires the loop, which reports the time since its start, and
    /// returning before the deadline lets the loop wait on. Once the loop has
    /// fired every event is dropped and changes nothing.
    pub fn step(&mut self, event: LoopEvent) -> (action: LoopAction)
        requires
            old(self)@.inv(),
            old(self)@.accepts(event),
        ensures
            final(self)@ == old(self)@.next(event),
            action == old(self)@.action(event),
            final(self)@.inv(),
    {
        match self.state {
            LoopState::Fired => LoopAction::Ignore,
            LoopState::Running => {
                match event {
                    LoopEvent::Extension(request) => {
                        self.timed.extend_timeout(request.amount);
                    },
                    LoopEvent::ChannelClosed => {
                        self.listening = false;
                    },
                    LoopEvent::TimerElapsed { now } => {
                        match self.timed.timeout(now) {
                            WaitStatus::Fired => {
                                self.state = LoopState::Fired;
                                return LoopAction::Report(
                                    LoopOutcome { elapsed: now - self.start },
                                );
                            },
                            WaitStatus::Pending => {},
                        }
                    },
                }
                LoopAction::Wait { deadline: self.timed.deadline(), listening: self.listening }
            },
        }
    }

    /// Where the loop stands.
    pub fn state(&self) -> (state: LoopState)
        ensures
            state == self@.state,
    {
        self.state
    }

    /// The point in time at which the loop fires, or at which it has fired.
    pub fn deadline(&self) -> (deadline: u64)
        ensures
            deadline == self@.timer.deadline,
    {
        self.timed.deadline()
    }

    /// The point in time from which elapsed time is counted.
    pub fn start(&self) -> (start: u64)
        ensures
            start == self@.start,
    {
        self.start
    }

    /// Whether the inbound queue can still deliver a request.
    pub fn is_listening(&self) -> (listening: bool)
        ensures
            listening == self@.listening,
    {
        self.listening
    }
}

} // verus!
