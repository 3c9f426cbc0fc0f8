//! The deadline timer: one point in time that can be awaited and pushed forward.
use vstd::prelude::*;

verus! {

/// A deadline timer as a mathematical value. Times are whole time units on the
/// caller's clock and are not bounded here.
pub struct TimerView {
    /// The length of the first countdown.
    pub base_duration: nat,
    /// The point in time at which the timer fires.
    pub deadline: nat,
    /// Whether a wait is outstanding. It is from construction until the timer fires.
    pub armed: bool,
}

impl TimerView {
    /// The timer that was created at `now` to fire `initial_duration` later.
    pub open spec fn started(now: nat, initial_duration: nat) -> TimerView {
        TimerView {
            base_duration: initial_duration,
            deadline: now + initial_duration,
            armed: true,
        }
    }

    /// Whether the deadline is reached at `now`. The deadline itself counts.
    pub open spec fn reached(self, now: nat) -> bool {
        self.deadline <= now
    }

    /// The timer after its deadline was pushed `amount` further.
    pub open spec fn extend(self, amount: nat) -> TimerView {
        TimerView { deadline: self.deadline + amount, ..self }
    }

    /// The timer after its wait was examined at `now`: a wait that has reached
    /// the deadline is over, any other is left as it was.
    pub open spec fn wait(self, now: nat) -> TimerView {
        if self.reached(now) {
            TimerView { armed: false, ..self }
        } else {
            self
        }
    }

    /// What examining the wait at `now` reports.
    pub open spec fn status(self, now: nat) -> WaitStatus {
        if self.reached(now) {
            WaitStatus::Fired
        } else {
            WaitStatus::Pending
        }
    }

    /// The timer after each of `amounts` was applied in turn, first to last.
    pub open spec fn extend_all(self, amounts: Seq<u64>) -> TimerView
        decreases amounts.len(),
    {
        if amounts.len() == 0 {
            self
        } else {
            self.extend_all(amounts.drop_last()).extend(amounts.last() as nat)
        }
    }
}

/// The sum of `amounts`.
pub open spec fn total(amounts: Seq<u64>) -> nat
    decreases amounts.len(),
{
    if amounts.len() == 0 {
        0
    } else {
        total(amounts.drop_last()) + amounts.last() as nat
    }
}

/// What one examination of a wait found.
#[derive(Clone, Copy, Debug, PartialEq, Eq, Structural)]
pub enum WaitStatus {
    /// The deadline lies ahead: the wait goes on.
    Pending,
    /// The deadline is reached: the wait is over.
    Fired,
}

/// The one outstanding wait: the point in time at which it resumes.
#[derive(Debug)]
struct WaitHandle {
    target: u64,
}

/// A single countdown with a deadline that can be moved forward while it is
/// awaited. It is armed on construction, so the time between construction and
/// the first wait counts toward the deadline.
#[derive(Debug)]
pub struct DeadlineTimer {
    base_duration: u64,
    deadline: u64,
    handle: Option<WaitHandle>,
}

impl View for DeadlineTimer {
    type V = TimerView;

    closed spec fn view(&self) -> TimerView {
        TimerView {
            base_duration: self.base_duration as nat,
            deadline: self.deadline as nat,
            armed: self.handle is Some,
        }
    }
}

impl DeadlineTimer {
    /// The slot holds at most one wait, and that wait resumes at the deadline.
    #[verifier::type_invariant]
    spec fn slot_follows_deadline(&self) -> bool {
        self.handle matches Some(handle) ==> handle.target == self.deadline
    }

    /// Creates the timer at `now`, armed to fire `initial_duration` later.
    pub fn new(now: u64, initial_duration: u64) -> (timer: DeadlineTimer)
        requires
            now + initial_duration <= u64::MAX,
        ensures
            timer@ == TimerView::started(now as nat, initial_duration as nat),
    {
        let deadline: u64 = now + initial_duration;
        DeadlineTimer {
            base_duration: initial_duration,
            deadline,
            handle: Some(WaitHandle { target: deadline }),
        }
    }

    /// Pushes the deadline `amount` further. The outstanding wait is taken out
    /// of its slot, given the new deadline as its target, and put back: it is
    /// the same wait, so the time that has already passed still counts.
    ///
    /// Nothing else changes, and the timer does not fire. An `amount` of zero
    /// leaves the timer as it was. A timer whose wait is over cannot be
    /// extended, and neither can a deadline be pushed beyond what `u64` holds.
    pub fn extend(&mut self, amount: u64)
        requires
            old(self)@.armed,
            old(self)@.deadline + amount <= u64::MAX,
        ensures
            final(self)@ == old(self)@.extend(amount as nat),
    {
        proof {
            use_type_invariant(&*self);
        }
        let new_deadline: u64 = self.deadline + amount;
        let mut taken: Option<WaitHandle> = None;
        core::mem::swap(&mut self.handle, &mut taken);
        let mut handle = taken.unwrap();
        handle.target = new_deadline;
        self.deadline = new_deadline;
        self.handle = Some(handle);
    }

    /// Examines the outstanding wait at `now`. While the deadline lies ahead the
    /// wait goes on untouched, so a later call sees an extension made in
    /// between. Once the deadline is reached the wait is over and leaves its slot.
    ///
    /// A timer whose wait is over cannot be waited on again.
    pub fn wait(&mut self, now: u64) -> (status: WaitStatus)
        requires
            old(self)@.armed,
        ensures
            status == old(self)@.status(now as nat),
            final(self)@ == old(self)@.wait(now as nat),
    {
        proof {
            use_type_invariant(&*self);
        }
        let target: u64 = match &self.handle {
            Some(handle) => handle.target,
            None => self.deadline,
        };
        if target <= now {
            self.handle = None;
            WaitStatus::Fired
        } else {
            WaitStatus::Pending
        }
    }

    /// The point in time at which the timer fires.
    pub fn deadline(&self) -> (deadline: u64)
        ensures
            deadline == self@.deadline,
    {
        self.deadline
    }

    /// The length of the first countdown.
    pub fn base_duration(&self) -> (base_duration: u64)
        ensures
            base_duration == self@.base_duration,
    {
        self.base_duration
    }

    /// Whether a wait is outstanding.
    pub fn is_armed(&self) -> (armed: bool)
        ensures
            armed == self@.armed,
    {
        self.handle.is_some()
    }
}

/// What every state of the timed process can do: have its timeout awaited, and
/// have it extended. The countdown that a process starts with,
/// [`DeadlineTimer`], is the one state there is so far.
///
/// What is proved of a loop around a state rests on these contracts, so it
/// holds of a state whose implementation Verus has checked against them.
pub trait State {
    /// The state's timer.
    spec fn timer(&self) -> TimerView;

    /// The deadline of a state is a time that `u64` holds.
    proof fn deadline_fits(&self)
        ensures
            self.timer().deadline <= u64::MAX,
    ;

    /// The point in time at which the state times out.
    fn deadline(&self) -> (deadline: u64)
        ensures
            deadline == self.timer().deadline,
    ;

    /// Examines the state's wait at `now`, as [`DeadlineTimer::wait`] does.
    fn timeout(&mut self, now: u64) -> (status: WaitStatus)
        requires
            old(self).timer().armed,
        ensures
            status == old(self).timer().status(now as nat),
            final(self).timer() == old(self).timer().wait(now as nat),
    ;

    /// Pushes the state's deadline `duration` further, as
    /// [`DeadlineTimer::extend`] does.
    fn extend_timeout(&mut self, duration: u64)
        requires
            old(self).timer().armed,
            old(self).timer().deadline + duration <= u64::MAX,
        ensures
            final(self).timer() == old(self).timer().extend(duration as nat),
    ;
}

impl State for DeadlineTimer {
    open spec fn timer(&self) -> TimerView {
        self@
    }

    proof fn deadline_fits(&self) {
    }

    fn deadline(&self) -> (deadline: u64) {
        self.deadline
    }

    fn timeout(&mut self, now: u64) -> (status: WaitStatus) {
        self.wait(now)
    }

    fn extend_timeout(&mut self, duration: u64) {
        self.extend(duration)
    }
}

} // verus!
