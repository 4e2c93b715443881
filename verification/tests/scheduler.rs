use weather_notifier::clock::ClockTime;
use weather_notifier::scheduler::{
    mark_notification, minutes_to_next, needs, on_mark, sleep_millis, step, wait_millis, Action,
    Event, Need, Notification, Phase, Transition, COOLDOWN_MILLIS, MIN_SLEEP_MILLIS,
};

fn at(hour: u32, minute: u32, second: u32) -> ClockTime {
    ClockTime::new(2024, 1, 5, hour, minute, second).unwrap()
}

/// The local time `seconds` after midnight.
fn clock(seconds: u64) -> ClockTime {
    let s = seconds % 86_400;
    at((s / 3600) as u32, ((s / 60) % 60) as u32, (s % 60) as u32)
}

#[test]
fn wait_at_three_past_twelve() {
    assert_eq!(minutes_to_next(3), 2);
    assert_eq!(wait_millis(&at(12, 3, 0)), 120_000);
    assert_eq!(sleep_millis(&at(12, 3, 0)), 120_000);
}

#[test]
fn wait_at_the_mark_is_zero_and_sleep_one_second() {
    assert_eq!(minutes_to_next(5), 5);
    assert_eq!(wait_millis(&at(12, 5, 0)), 0);
    assert_eq!(sleep_millis(&at(12, 5, 0)), 1000);
    assert_eq!(MIN_SLEEP_MILLIS, 1000);
}

#[test]
fn minutes_to_the_next_mark() {
    let expected = [5, 4, 3, 2, 1];
    for minute in 0..60u32 {
        assert_eq!(minutes_to_next(minute), expected[(minute % 5) as usize]);
    }
}

#[test]
fn wait_within_a_mark_minute_runs_to_the_next_mark() {
    assert_eq!(wait_millis(&at(12, 5, 1)), 299_000);
    assert_eq!(wait_millis(&at(12, 5, 59)), 241_000);
    assert_eq!(wait_millis(&at(12, 0, 30)), 270_000);
    assert_eq!(wait_millis(&at(12, 4, 59)), 1000);
    assert_eq!(wait_millis(&at(12, 4, 0)), 60_000);
    assert_eq!(wait_millis(&at(23, 59, 59)), 1000);
    assert_eq!(wait_millis(&at(0, 56, 15)), 225_000);
}

#[test]
fn sleep_ends_in_a_mark_minute() {
    for seconds in 0..3600u64 {
        let now = clock(seconds);
        let sleep = sleep_millis(&now);
        assert!(sleep >= 1000 && sleep <= 300_000 && sleep % 1000 == 0);
        let woke = seconds + sleep / 1000;
        assert!(on_mark(&clock(woke)), "from {} to {}", seconds, woke);
        if seconds % 300 == 0 {
            assert_eq!(wait_millis(&now), 0);
            assert_eq!(sleep, 1000);
        } else {
            assert_eq!(wait_millis(&now), sleep);
            assert_eq!(woke % 300, 0);
            assert_eq!(woke / 300, seconds / 300 + 1);
        }
    }
}

#[test]
fn marks_are_the_multiples_of_five() {
    for minute in 0..60u32 {
        assert_eq!(on_mark(&at(7, minute, 13)), minute % 5 == 0);
    }
}

#[test]
fn notification_tells_the_time() {
    assert_eq!(
        mark_notification(&at(12, 5, 1)),
        Notification {
            title: "現在時刻（5分刻み）".to_string(),
            body: "現在の時刻は 2024-01-05 12:05:01 です".to_string(),
        }
    );
}

#[test]
fn what_each_phase_needs() {
    assert_eq!(needs(Phase::Waiting), Need::Clock);
    assert_eq!(needs(Phase::Checking), Need::Switch);
    assert_eq!(needs(Phase::Firing), Need::Clock);
    assert_eq!(needs(Phase::Cooldown), Need::Nothing);
}

#[test]
fn the_cycle_with_the_switch_on() {
    assert_eq!(
        step(Phase::Waiting, Event::Clock(at(12, 3, 0))),
        Transition { next: Phase::Checking, action: Action::Sleep(120_000) }
    );
    assert_eq!(
        step(Phase::Checking, Event::Switch(true)),
        Transition { next: Phase::Firing, action: Action::Proceed }
    );
    assert_eq!(
        step(Phase::Firing, Event::Clock(at(12, 5, 0))),
        Transition {
            next: Phase::Cooldown,
            action: Action::Notify(mark_notification(&at(12, 5, 0))),
        }
    );
    assert_eq!(
        step(Phase::Cooldown, Event::Nothing),
        Transition { next: Phase::Waiting, action: Action::Sleep(2000) }
    );
    assert_eq!(COOLDOWN_MILLIS, 2000);
}

#[test]
fn the_cycle_with_the_switch_off() {
    assert_eq!(
        step(Phase::Checking, Event::Switch(false)),
        Transition { next: Phase::Cooldown, action: Action::Proceed }
    );
}

#[test]
fn no_notification_off_the_mark() {
    for minute in 0..60u32 {
        let r = step(Phase::Firing, Event::Clock(at(9, minute, 30)));
        assert_eq!(r.next, Phase::Cooldown);
        if minute % 5 == 0 {
            assert_eq!(r.action, Action::Notify(mark_notification(&at(9, minute, 30))));
        } else {
            assert_eq!(r.action, Action::Proceed);
        }
    }
}

#[test]
fn an_event_that_was_not_asked_for_changes_nothing() {
    let clock_event = Event::Clock(at(12, 5, 0));
    let stay = |phase: Phase| Transition { next: phase, action: Action::Proceed };
    assert_eq!(step(Phase::Waiting, Event::Switch(true)), stay(Phase::Waiting));
    assert_eq!(step(Phase::Waiting, Event::Nothing), stay(Phase::Waiting));
    assert_eq!(step(Phase::Checking, clock_event), stay(Phase::Checking));
    assert_eq!(step(Phase::Checking, Event::Nothing), stay(Phase::Checking));
    assert_eq!(step(Phase::Firing, Event::Switch(true)), stay(Phase::Firing));
    assert_eq!(step(Phase::Firing, Event::Nothing), stay(Phase::Firing));
    assert_eq!(
        step(Phase::Cooldown, clock_event),
        Transition { next: Phase::Waiting, action: Action::Sleep(2000) }
    );
    assert_eq!(
        step(Phase::Cooldown, Event::Switch(false)),
        Transition { next: Phase::Waiting, action: Action::Sleep(2000) }
    );
}

/// Runs the cycle on a clock that starts `start` seconds after midnight and
/// moves only while the scheduler sleeps, each sleep lasting `extra`
/// milliseconds longer than asked. Returns the instants, in seconds, at which
/// it notified.
fn run(start: u64, extra: u64, enabled: bool, until: u64) -> Vec<u64> {
    let mut millis = start * 1000;
    let mut phase = Phase::Waiting;
    let mut fired = Vec::new();
    while millis / 1000 < until {
        let event = match needs(phase) {
            Need::Clock => Event::Clock(clock(millis / 1000)),
            Need::Switch => Event::Switch(enabled),
            Need::Nothing => Event::Nothing,
        };
        let transition = step(phase, event);
        match transition.action {
            Action::Sleep(asked) => millis += asked + extra,
            Action::Notify(notification) => {
                assert_eq!(notification, mark_notification(&clock(millis / 1000)));
                fired.push(millis / 1000);
            }
            Action::Proceed => {}
        }
        phase = transition.next;
    }
    fired
}

#[test]
fn one_notification_for_each_mark() {
    for start in [0u64, 1, 59, 60, 180, 299, 300, 301, 302, 1234, 3599] {
        for extra in [0u64, 1, 20, 999] {
            let fired = run(start, extra, true, start + 3600);
            let first = if start % 300 == 0 { start / 300 } else { start / 300 + 1 };
            let marks: Vec<u64> = fired.iter().map(|at| at / 300).collect();
            let expected: Vec<u64> = (first..first + marks.len() as u64).collect();
            assert_eq!(marks, expected, "start {} extra {}", start, extra);
            assert!(marks.len() >= 11, "start {} extra {}", start, extra);
            for at in &fired {
                assert!(at % 300 < 60);
            }
        }
    }
}

#[test]
fn no_notification_while_switched_off() {
    assert_eq!(run(0, 0, false, 7200), Vec::<u64>::new());
    assert_eq!(run(299, 5, false, 7200), Vec::<u64>::new());
}

#[test]
fn a_sleep_that_overruns_the_mark_minute_skips_that_mark() {
    let fired = run(120, 61_000, true, 3600);
    assert_eq!(fired, Vec::<u64>::new());
}
