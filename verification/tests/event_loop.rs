use deadline_timer::event_loop::{
    EventLoop, ExtensionRequest, LoopAction, LoopEvent, LoopOutcome, LoopState,
};
use deadline_timer::timer::DeadlineTimer;

fn started(start: u64, initial_duration: u64) -> EventLoop<DeadlineTimer> {
    EventLoop::new(start, DeadlineTimer::new(start, initial_duration))
}

fn request(amount: u64) -> LoopEvent {
    LoopEvent::Extension(ExtensionRequest { amount })
}

fn report(elapsed: u64) -> LoopAction {
    LoopAction::Report(LoopOutcome { elapsed })
}

#[test]
fn new_loop_is_running_and_listening() {
    let event_loop = started(20, 5);
    assert_eq!(event_loop.state(), LoopState::Running);
    assert_eq!(event_loop.start(), 20);
    assert_eq!(event_loop.deadline(), 25);
    assert!(event_loop.is_listening());
}

#[test]
fn new_loop_around_an_older_timer_counts_from_its_own_start() {
    let timer = DeadlineTimer::new(10, 5);
    let mut event_loop = EventLoop::new(8, timer);
    assert_eq!(event_loop.start(), 8);
    assert_eq!(event_loop.deadline(), 15);
    assert_eq!(event_loop.step(LoopEvent::TimerElapsed { now: 15 }), report(7));
}

#[test]
fn no_extension_baseline_fires_after_initial_duration() {
    let mut event_loop = started(0, 5);
    assert_eq!(event_loop.step(LoopEvent::TimerElapsed { now: 5 }), report(5));
    assert_eq!(event_loop.state(), LoopState::Fired);
}

#[test]
fn no_extension_baseline_reports_the_jitter_on_top() {
    let mut event_loop = started(100, 5);
    assert_eq!(event_loop.step(LoopEvent::TimerElapsed { now: 107 }), report(7));
    assert_eq!(event_loop.state(), LoopState::Fired);
    assert_eq!(event_loop.deadline(), 105);
}

#[test]
fn single_extension_fires_at_fifteen() {
    let mut event_loop = started(0, 5);
    assert_eq!(
        event_loop.step(request(10)),
        LoopAction::Wait { deadline: 15, listening: true }
    );
    assert_eq!(event_loop.state(), LoopState::Running);
    assert_eq!(event_loop.deadline(), 15);
    assert_eq!(event_loop.step(LoopEvent::TimerElapsed { now: 15 }), report(15));
    assert_eq!(event_loop.state(), LoopState::Fired);
}

#[test]
fn wait_returning_early_lets_the_loop_wait_on() {
    let mut event_loop = started(0, 5);
    assert_eq!(
        event_loop.step(LoopEvent::TimerElapsed { now: 4 }),
        LoopAction::Wait { deadline: 5, listening: true }
    );
    assert_eq!(event_loop.state(), LoopState::Running);
    assert_eq!(event_loop.step(LoopEvent::TimerElapsed { now: 5 }), report(5));
}

#[test]
fn wait_returning_at_the_old_deadline_after_an_extension_does_not_fire() {
    let mut event_loop = started(0, 5);
    event_loop.step(request(10));
    assert_eq!(
        event_loop.step(LoopEvent::TimerElapsed { now: 5 }),
        LoopAction::Wait { deadline: 15, listening: true }
    );
    assert_eq!(event_loop.state(), LoopState::Running);
}

#[test]
fn requests_are_applied_in_order_and_add_up() {
    let mut event_loop = started(50, 5);
    assert_eq!(
        event_loop.step(request(10)),
        LoopAction::Wait { deadline: 65, listening: true }
    );
    assert_eq!(
        event_loop.step(LoopEvent::TimerElapsed { now: 60 }),
        LoopAction::Wait { deadline: 65, listening: true }
    );
    assert_eq!(
        event_loop.step(request(1)),
        LoopAction::Wait { deadline: 66, listening: true }
    );
    assert_eq!(
        event_loop.step(request(100)),
        LoopAction::Wait { deadline: 166, listening: true }
    );
    assert_eq!(event_loop.deadline(), 50 + 5 + 10 + 1 + 100);
    assert_eq!(event_loop.step(LoopEvent::TimerElapsed { now: 166 }), report(116));
}

#[test]
fn late_extension_does_not_resurrect_a_fired_timer() {
    let mut event_loop = started(0, 5);
    assert_eq!(event_loop.step(LoopEvent::TimerElapsed { now: 5 }), report(5));
    assert_eq!(event_loop.step(request(10)), LoopAction::Ignore);
    assert_eq!(event_loop.state(), LoopState::Fired);
    assert_eq!(event_loop.deadline(), 5);
    assert_eq!(event_loop.step(LoopEvent::TimerElapsed { now: 15 }), LoopAction::Ignore);
    assert_eq!(event_loop.state(), LoopState::Fired);
}

#[test]
fn same_tick_race_with_the_request_first_extends() {
    let mut event_loop = started(0, 5);
    assert_eq!(
        event_loop.step(request(10)),
        LoopAction::Wait { deadline: 15, listening: true }
    );
    assert_eq!(
        event_loop.step(LoopEvent::TimerElapsed { now: 5 }),
        LoopAction::Wait { deadline: 15, listening: true }
    );
    assert_eq!(event_loop.state(), LoopState::Running);
}

#[test]
fn same_tick_race_with_the_firing_first_drops_the_request() {
    let mut event_loop = started(0, 5);
    assert_eq!(event_loop.step(LoopEvent::TimerElapsed { now: 5 }), report(5));
    assert_eq!(event_loop.step(request(10)), LoopAction::Ignore);
    assert_eq!(event_loop.state(), LoopState::Fired);
    assert_eq!(event_loop.deadline(), 5);
}

#[test]
fn fired_loop_drops_every_event() {
    let mut event_loop = started(0, 5);
    event_loop.step(LoopEvent::TimerElapsed { now: 6 });
    for event in [
        request(0),
        request(u64::MAX),
        LoopEvent::ChannelClosed,
        LoopEvent::TimerElapsed { now: 0 },
        LoopEvent::TimerElapsed { now: u64::MAX },
    ] {
        assert!(event_loop.accepts(&event));
        assert_eq!(event_loop.step(event), LoopAction::Ignore);
        assert_eq!(event_loop.state(), LoopState::Fired);
        assert_eq!(event_loop.deadline(), 5);
        assert!(event_loop.is_listening());
    }
}

#[test]
fn loop_reports_exactly_once() {
    let mut event_loop = started(0, 5);
    let events = [
        request(2),
        LoopEvent::TimerElapsed { now: 5 },
        LoopEvent::ChannelClosed,
        LoopEvent::TimerElapsed { now: 7 },
        LoopEvent::TimerElapsed { now: 8 },
        request(4),
        LoopEvent::TimerElapsed { now: 30 },
    ];
    let mut reports = Vec::new();
    for event in events {
        if let LoopAction::Report(outcome) = event_loop.step(event) {
            reports.push(outcome);
        }
    }
    assert_eq!(reports, vec![LoopOutcome { elapsed: 7 }]);
}

#[test]
fn closed_channel_does_not_stop_the_loop() {
    let mut event_loop = started(0, 5);
    assert_eq!(
        event_loop.step(LoopEvent::ChannelClosed),
        LoopAction::Wait { deadline: 5, listening: false }
    );
    assert_eq!(event_loop.state(), LoopState::Running);
    assert!(!event_loop.is_listening());
    assert_eq!(event_loop.deadline(), 5);
    assert_eq!(event_loop.step(LoopEvent::TimerElapsed { now: 5 }), report(5));
    assert_eq!(event_loop.state(), LoopState::Fired);
}

#[test]
fn closed_channel_after_a_request_keeps_the_extended_deadline() {
    let mut event_loop = started(0, 5);
    event_loop.step(request(10));
    assert_eq!(
        event_loop.step(LoopEvent::ChannelClosed),
        LoopAction::Wait { deadline: 15, listening: false }
    );
    assert_eq!(
        event_loop.step(LoopEvent::TimerElapsed { now: 5 }),
        LoopAction::Wait { deadline: 15, listening: false }
    );
    assert_eq!(event_loop.step(LoopEvent::TimerElapsed { now: 15 }), report(15));
}

#[test]
fn zero_request_is_a_noop() {
    let mut event_loop = started(0, 5);
    assert_eq!(
        event_loop.step(request(0)),
        LoopAction::Wait { deadline: 5, listening: true }
    );
    assert_eq!(event_loop.state(), LoopState::Running);
    assert_eq!(event_loop.deadline(), 5);
    assert_eq!(event_loop.start(), 0);
    assert!(event_loop.is_listening());
    assert_eq!(
        event_loop.step(LoopEvent::TimerElapsed { now: 4 }),
        LoopAction::Wait { deadline: 5, listening: true }
    );
    assert_eq!(event_loop.step(LoopEvent::TimerElapsed { now: 5 }), report(5));
}

#[test]
fn repeated_zero_requests_change_nothing() {
    let mut event_loop = started(9, 5);
    for _ in 0..1000 {
        assert_eq!(
            event_loop.step(request(0)),
            LoopAction::Wait { deadline: 14, listening: true }
        );
    }
    assert_eq!(event_loop.step(LoopEvent::TimerElapsed { now: 14 }), report(5));
}

#[test]
fn accepts_tells_whether_a_request_fits() {
    let mut event_loop = started(0, 5);
    assert!(event_loop.accepts(&request(0)));
    assert!(event_loop.accepts(&request(10)));
    assert!(event_loop.accepts(&request(u64::MAX - 5)));
    assert!(!event_loop.accepts(&request(u64::MAX - 4)));
    assert!(!event_loop.accepts(&request(u64::MAX)));
    assert!(event_loop.accepts(&LoopEvent::ChannelClosed));
    assert!(event_loop.accepts(&LoopEvent::TimerElapsed { now: 0 }));
    assert!(event_loop.accepts(&LoopEvent::TimerElapsed { now: u64::MAX }));

    assert_eq!(
        event_loop.step(request(u64::MAX - 5)),
        LoopAction::Wait { deadline: u64::MAX, listening: true }
    );
    assert!(event_loop.accepts(&request(0)));
    assert!(!event_loop.accepts(&request(1)));
    assert_eq!(
        event_loop.step(LoopEvent::TimerElapsed { now: u64::MAX }),
        report(u64::MAX)
    );
    assert!(event_loop.accepts(&request(1)));
}
