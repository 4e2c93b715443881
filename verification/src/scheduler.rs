//! The five-minute notification: how long to sleep until the next mark, when
//! to notify, and the cycle of waiting, checking, notifying and cooling down.

use crate::clock::{format_timestamp, timestamp_text, ClockTime, ClockView};
use vstd::prelude::*;

verus! {

/// The shortest sleep before a check, in milliseconds.
pub const MIN_SLEEP_MILLIS: u64 = 1000;

/// The sleep after a check, in milliseconds; it keeps one mark from being
/// notified twice.
pub const COOLDOWN_MILLIS: u64 = 2000;

/// Whether a minute of the hour is a five-minute mark.
pub open spec fn is_mark(minute: int) -> bool {
    minute % 5 == 0
}

/// Whole minutes from a minute of the hour to the next five-minute mark; from
/// a mark, the full five to the one after it.
pub open spec fn minutes_to_next_mark(minute: int) -> int {
    5 - minute % 5
}

/// Milliseconds from an instant to the next five-minute mark, and zero at the
/// very second in which a mark begins.
pub open spec fn wait_millis_at(minute: int, second: int) -> int {
    if minutes_to_next_mark(minute) == 5 && second == 0 {
        0
    } else {
        (minutes_to_next_mark(minute) * 60 - second) * 1000
    }
}

/// Milliseconds to sleep before the next check: the wait, but never less than
/// a second.
pub open spec fn sleep_millis_at(minute: int, second: int) -> int {
    if wait_millis_at(minute, second) < MIN_SLEEP_MILLIS as int {
        MIN_SLEEP_MILLIS as int
    } else {
        wait_millis_at(minute, second)
    }
}

pub fn minutes_to_next(minute: u32) -> (r: u32)
    ensures
        r == minutes_to_next_mark(minute as int),
        1 <= r <= 5,
{
    5 - minute % 5
}

/// Milliseconds from `now` to the next five-minute mark.
pub fn wait_millis(now: &ClockTime) -> (r: u64)
    ensures
        r == wait_millis_at(now@.minute, now@.second),
        r <= 300_000,
{
    let to_next = minutes_to_next(now.minute());
    let second = now.second();
    if to_next == 5 && second == 0 {
        0
    } else {
        let seconds: u32 = to_next * 60 - second;
        seconds as u64 * 1000
    }
}

/// Milliseconds to sleep from `now` before the next check.
pub fn sleep_millis(now: &ClockTime) -> (r: u64)
    ensures
        r == sleep_millis_at(now@.minute, now@.second),
        MIN_SLEEP_MILLIS <= r <= 300_000,
{
    let wait = wait_millis(now);
    if wait < MIN_SLEEP_MILLIS {
        MIN_SLEEP_MILLIS
    } else {
        wait
    }
}

/// Whether `now` lies in a minute that is a five-minute mark.
pub fn on_mark(now: &ClockTime) -> (r: bool)
    ensures
        r == is_mark(now@.minute),
{
    now.minute() % 5 == 0
}

/// A notification for the desktop.
#[derive(Debug, PartialEq, Eq)]
pub struct Notification {
    pub title: String,
    pub body: String,
}

pub struct NotificationView {
    pub title: Seq<char>,
    pub body: Seq<char>,
}

impl View for Notification {
    type V = NotificationView;

    open spec fn view(&self) -> NotificationView {
        NotificationView { title: self.title@, body: self.body@ }
    }
}

/// The notification of a five-minute mark: it tells the time.
pub open spec fn mark_notification_at(now: ClockView) -> NotificationView {
    NotificationView {
        title: "現在時刻（5分刻み）"@,
        body: "現在の時刻は "@ + timestamp_text(now) + " です"@,
    }
}

/// The notification of a five-minute mark, for the instant at which it is
/// raised.
pub fn mark_notification(now: &ClockTime) -> (r: Notification)
    ensures
        r@ == mark_notification_at(now@),
{
    let mut body = String::from_str("現在の時刻は ");
    let stamp = format_timestamp(now);
    body.append(stamp.as_str());
    body.append(" です");
    Notification { title: String::from_str("現在時刻（5分刻み）"), body }
}

/// Where the scheduler stands in its cycle.
#[derive(Debug, Clone, Copy, PartialEq, Eq, Structural)]
pub enum Phase {
    /// About to sleep until the next mark.
    Waiting,
    /// Awake again; about to look at the switch.
    Checking,
    /// The switch is on; about to look at the clock once more.
    Firing,
    /// The check is over; about to sleep the cooldown.
    Cooldown,
}

/// What the scheduler has to be told before it can go on.
#[derive(Debug, Clone, Copy, PartialEq, Eq, Structural)]
pub enum Need {
    Clock,
    Switch,
    Nothing,
}

/// What the scheduler is told.
#[derive(Debug, Clone, Copy, PartialEq, Eq)]
pub enum Event {
    /// The local time, just read.
    Clock(ClockTime),
    /// The switch of the notifications, just read.
    Switch(bool),
    /// Nothing was asked for.
    Nothing,
}

pub enum EventView {
    Clock(ClockView),
    Switch(bool),
    Nothing,
}

impl View for Event {
    type V = EventView;

    open spec fn view(&self) -> EventView {
        match self {
            Event::Clock(now) => EventView::Clock(now@),
            Event::Switch(enabled) => EventView::Switch(*enabled),
            Event::Nothing => EventView::Nothing,
        }
    }
}

/// What the scheduler asks to be done before its next step.
#[derive(Debug, PartialEq, Eq)]
pub enum Action {
    /// Sleep for so many milliseconds.
    Sleep(u64),
    /// Show the notification; a failure to show it changes nothing.
    Notify(Notification),
    /// Go on at once.
    Proceed,
}

pub enum ActionView {
    Sleep(int),
    Notify(NotificationView),
    Proceed,
}

impl View for Action {
    type V = ActionView;

    open spec fn view(&self) -> ActionView {
        match self {
            Action::Sleep(millis) => ActionView::Sleep(*millis as int),
            Action::Notify(notification) => ActionView::Notify(notification@),
            Action::Proceed => ActionView::Proceed,
        }
    }
}

/// One step of the scheduler: the phase it enters and what it asks for.
#[derive(Debug, PartialEq, Eq)]
pub struct Transition {
    pub next: Phase,
    pub action: Action,
}

pub struct TransitionView {
    pub next: Phase,
    pub action: ActionView,
}

impl View for Transition {
    type V = TransitionView;

    open spec fn view(&self) -> TransitionView {
        TransitionView { next: self.next, action: self.action@ }
    }
}

/// What each phase has to be told.
pub open spec fn need_of(phase: Phase) -> Need {
    match phase {
        Phase::Waiting => Need::Clock,
        Phase::Checking => Need::Switch,
        Phase::Firing => Need::Clock,
        Phase::Cooldown => Need::Nothing,
    }
}

/// The scheduler's cycle. Waiting, it takes the time and sleeps until the next
/// mark. Checking, it takes the switch and goes on to fire, or straight to the
/// cooldown where the switch is off. Firing, it takes the time again and
/// notifies if the minute is a mark. Cooling down, it sleeps and starts over.
/// Told something that the phase did not ask for, it stays where it is.
pub open spec fn step_of(phase: Phase, event: EventView) -> TransitionView {
    match (phase, event) {
        (Phase::Waiting, EventView::Clock(now)) => TransitionView {
            next: Phase::Checking,
            action: ActionView::Sleep(sleep_millis_at(now.minute, now.second)),
        },
        (Phase::Checking, EventView::Switch(enabled)) => TransitionView {
            next: if enabled {
                Phase::Firing
            } else {
                Phase::Cooldown
            },
            action: ActionView::Proceed,
        },
        (Phase::Firing, EventView::Clock(now)) => TransitionView {
            next: Phase::Cooldown,
            action: if is_mark(now.minute) {
                ActionView::Notify(mark_notification_at(now))
            } else {
                ActionView::Proceed
            },
        },
        (Phase::Cooldown, _) => TransitionView {
            next: Phase::Waiting,
            action: ActionView::Sleep(COOLDOWN_MILLIS as int),
        },
        _ => TransitionView { next: phase, action: ActionView::Proceed },
    }
}

/// What the scheduler has to be told in a phase.
pub fn needs(phase: Phase) -> (r: Need)
    ensures
        r == need_of(phase),
{
    match phase {
        Phase::Waiting => Need::Clock,
        Phase::Checking => Need::Switch,
        Phase::Firing => Need::Clock,
        Phase::Cooldown => Need::Nothing,
    }
}

/// Takes one step of the scheduler's cycle.
pub fn step(phase: Phase, event: Event) -> (r: Transition)
    ensures
        r@ == step_of(phase, event@),
{
    match phase {
        Phase::Waiting => match event {
            Event::Clock(now) => Transition {
                next: Phase::Checking,
                action: Action::Sleep(sleep_millis(&now)),
            },
            _ => Transition { next: phase, action: Action::Proceed },
        },
        Phase::Checking => match event {
            Event::Switch(enabled) => Transition {
                next: if enabled {
                    Phase::Firing
                } else {
                    Phase::Cooldown
                },
                action: Action::Proceed,
            },
            _ => Transition { next: phase, action: Action::Proceed },
        },
        Phase::Firing => match event {
            Event::Clock(now) => Transition {
                next: Phase::Cooldown,
                action: if on_mark(&now) {
                    Action::Notify(mark_notification(&now))
                } else {
                    Action::Proceed
                },
            },
            _ => Transition { next: phase, action: Action::Proceed },
        },
        Phase::Cooldown => Transition {
            next: Phase::Waiting,
            action: Action::Sleep(COOLDOWN_MILLIS),
        },
    }
}

/// A notification is asked for in one case only: firing, on being told a time
/// whose minute is a five-minute mark. There it always is.
pub proof fn lemma_notifies_on_mark_only(phase: Phase, event: EventView)
    ensures
        (step_of(phase, event).action is Notify) <==> (phase == Phase::Firing && event is Clock
            && is_mark(event->Clock_0.minute)),
        phase == Phase::Firing && event is Clock && is_mark(event->Clock_0.minute) ==> step_of(
            phase,
            event,
        ).action == ActionView::Notify(mark_notification_at(event->Clock_0)),
{
}

/// After a notification come the cooldown and the wait for the next mark:
/// whatever the scheduler is told, its next step sleeps the cooldown, and
/// neither that step nor the one after it notifies.
pub proof fn lemma_cooldown_follows_notification(
    phase: Phase,
    event: EventView,
    second: EventView,
    third: EventView,
)
    requires
        step_of(phase, event).action is Notify,
    ensures
        step_of(phase, event).next == Phase::Cooldown,
        step_of(Phase::Cooldown, second) == (TransitionView {
            next: Phase::Waiting,
            action: ActionView::Sleep(COOLDOWN_MILLIS as int),
        }),
        !(step_of(Phase::Waiting, third).action is Notify),
        step_of(Phase::Waiting, third).next == Phase::Waiting || step_of(
            Phase::Waiting,
            third,
        ).next == Phase::Checking,
{
}

/// The minute of the hour of an instant counted in seconds of local time.
pub open spec fn minute_of(instant: int) -> int {
    (instant / 60) % 60
}

/// The second of the minute of an instant counted in seconds of local time.
pub open spec fn second_of(instant: int) -> int {
    instant % 60
}

/// The number of the five-minute span in which an instant lies.
pub open spec fn mark_index(instant: int) -> int {
    instant / 300
}

/// Seconds to sleep before the next check, from an instant counted in seconds
/// of local time.
pub open spec fn sleep_seconds_at(instant: int) -> int {
    sleep_millis_at(minute_of(instant), second_of(instant)) / 1000
}

/// Where an instant lies within its five-minute span, by its minute and its
/// second.
proof fn lemma_place_in_span(instant: int)
    requires
        0 <= instant,
    ensures
        instant % 300 == 60 * (minute_of(instant) % 5) + second_of(instant),
        instant == 300 * mark_index(instant) + instant % 300,
        0 <= minute_of(instant) % 5 <= 4,
        0 <= second_of(instant) <= 59,
        0 <= minute_of(instant) <= 59,
{
    let q = instant / 60;
    let s = instant % 60;
    assert(instant == 60 * q + s);
    let c = q / 60;
    let m = q % 60;
    assert(q == 60 * c + m);
    let d = m / 5;
    let e = m % 5;
    assert(m == 5 * d + e);
    assert(instant == 300 * (12 * c + d) + (60 * e + s));
    assert(0 <= 60 * e + s < 300);
    assert(instant / 300 == 12 * c + d && instant % 300 == 60 * e + s) by {
        vstd::arithmetic::div_mod::lemma_fundamental_div_mod_converse(
            instant,
            300,
            12 * c + d,
            60 * e + s,
        );
    }
}

/// The first second of a five-minute span lies in a minute that is a mark.
proof fn lemma_span_starts_on_mark(span: int)
    requires
        0 <= span,
    ensures
        is_mark(minute_of(300 * span)),
{
    let instant = 300 * span;
    lemma_place_in_span(instant);
    assert(instant % 300 == 0) by {
        vstd::arithmetic::div_mod::lemma_fundamental_div_mod_converse(instant, 300, span, 0);
    }
}

/// A sleep of exactly the computed length ends in a minute that is a mark: at
/// the first second of the next mark, or, begun in the very second in which a
/// mark begins, one second into that mark.
pub proof fn lemma_sleep_ends_on_mark(instant: int)
    requires
        0 <= instant,
    ensures
        sleep_millis_at(minute_of(instant), second_of(instant)) == 1000 * sleep_seconds_at(
            instant,
        ),
        is_mark(minute_of(instant + sleep_seconds_at(instant))),
        instant % 300 == 0 ==> sleep_seconds_at(instant) == 1,
        instant % 300 != 0 ==> instant + sleep_seconds_at(instant) == 300 * (mark_index(instant)
            + 1),
{
    let m = minute_of(instant);
    let s = second_of(instant);
    let within = instant % 300;
    lemma_place_in_span(instant);
    if within == 0 {
        assert(m % 5 == 0 && s == 0);
        assert(sleep_millis_at(m, s) == 1000);
        lemma_place_in_span(instant + 1);
        assert((instant + 1) % 300 == 1) by {
            vstd::arithmetic::div_mod::lemma_fundamental_div_mod_converse(
                instant + 1,
                300,
                mark_index(instant),
                1,
            );
        }
    } else {
        assert(minutes_to_next_mark(m) * 60 - s == 300 - within);
        assert(sleep_millis_at(m, s) == (300 - within) * 1000);
        assert(sleep_seconds_at(instant) == 300 - within);
        lemma_span_starts_on_mark(mark_index(instant) + 1);
    }
}

/// No mark is notified twice. Let a notification be raised at `fired`, let the
/// scheduler compute its next sleep at `resumed`, after the cooldown, and let
/// it wake at `woke`, after that sleep; sleeps may last longer than asked, never
/// shorter. Then `woke` lies in a later five-minute span than `fired`.
pub proof fn lemma_one_notification_per_mark(fired: int, resumed: int, woke: int)
    requires
        0 <= fired,
        is_mark(minute_of(fired)),
        resumed >= fired + COOLDOWN_MILLIS as int / 1000,
        woke >= resumed + sleep_seconds_at(resumed),
    ensures
        mark_index(woke) > mark_index(fired),
{
    lemma_sleep_ends_on_mark(resumed);
    lemma_place_in_span(fired);
    lemma_place_in_span(resumed);
    let span = mark_index(fired);
    assert(fired % 300 <= 59);
    if resumed % 300 == 0 {
        assert(mark_index(resumed) > span);
        assert(sleep_seconds_at(resumed) == 1);
    } else {
        assert(mark_index(resumed) >= span);
        assert(woke >= 300 * (span + 1));
    }
    assert(mark_index(woke) > span) by {
        vstd::arithmetic::div_mod::lemma_div_is_ordered(300 * (span + 1), woke, 300);
        vstd::arithmetic::div_mod::lemma_fundamental_div_mod_converse(
            300 * (span + 1),
            300,
            span + 1,
            0,
        );
    }
}

} // verus!
