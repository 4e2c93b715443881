//! Whether the five-minute notifications are switched on.

use crate::error::{BackendError, ErrorView};
use vstd::prelude::*;

verus! {

/// The switch of the five-minute notifications. One value of it lives as long
/// as the process; who shares it between threads keeps it behind a lock.
#[derive(Debug)]
pub struct NotificationState {
    pub enabled: bool,
}

/// The state after a toggle: what the toggle set, whatever was there before.
pub open spec fn toggled(before: NotificationState, enabled: bool) -> NotificationState {
    NotificationState { enabled }
}

impl NotificationState {
    /// The state at launch: notifications are off.
    pub fn new() -> (state: NotificationState)
        ensures
            !state.enabled,
    {
        NotificationState { enabled: false }
    }

    /// Switches the notifications on or off, whatever they were.
    pub fn set_enabled(&mut self, enabled: bool)
        ensures
            *final(self) == toggled(*old(self), enabled),
    {
        self.enabled = enabled;
    }

    pub fn is_enabled(&self) -> (r: bool)
        ensures
            r == self.enabled,
    {
        self.enabled
    }
}

impl Default for NotificationState {
    fn default() -> (state: NotificationState)
        ensures
            !state.enabled,
    {
        NotificationState::new()
    }
}

/// Switches the notifications on or off. `lock` is what taking the lock around
/// the state gave: the state, or the words of a poisoned lock, which come back
/// as the error.
pub fn toggle_notification(lock: Result<&mut NotificationState, String>, enabled: bool) -> (r:
    Result<(), BackendError>)
    ensures
        match lock {
            Ok(state) => r.is_ok() && *final(state) == toggled(*state, enabled),
            Err(detail) => r.is_err() && r.unwrap_err()@ == ErrorView::Lock(detail@),
        },
{
    match lock {
        Ok(state) => {
            state.set_enabled(enabled);
            Ok(())
        },
        Err(detail) => Err(BackendError::Lock(detail)),
    }
}

/// Reads the switch. `lock` is what taking the lock around the state gave.
pub fn get_notification_state(lock: Result<&NotificationState, String>) -> (r: Result<
    bool,
    BackendError,
>)
    ensures
        match lock {
            Ok(state) => r == Ok::<bool, BackendError>(state.enabled),
            Err(detail) => r.is_err() && r.unwrap_err()@ == ErrorView::Lock(detail@),
        },
{
    match lock {
        Ok(state) => Ok(state.is_enabled()),
        Err(detail) => Err(BackendError::Lock(detail)),
    }
}

/// The state after a run of toggles, one after the other.
pub open spec fn after_toggles(start: NotificationState, toggles: Seq<bool>) -> NotificationState
    decreases toggles.len(),
{
    if toggles.len() == 0 {
        start
    } else {
        after_toggles(toggled(start, toggles[0]), toggles.skip(1))
    }
}

/// The last write wins: after any run of toggles the switch is what the last
/// of them set, whatever it was before and whatever the others set.
pub proof fn lemma_last_toggle_wins(start: NotificationState, toggles: Seq<bool>)
    requires
        toggles.len() > 0,
    ensures
        after_toggles(start, toggles).enabled == toggles.last(),
    decreases toggles.len(),
{
    let rest = toggles.skip(1);
    if rest.len() > 0 {
        lemma_last_toggle_wins(toggled(start, toggles[0]), rest);
        assert(rest.last() == toggles.last());
    } else {
        assert(after_toggles(toggled(start, toggles[0]), rest) == toggled(start, toggles[0]));
    }
}

/// A toggle followed by a read gives what the toggle set.
pub proof fn lemma_toggle_then_read(start: NotificationState, enabled: bool)
    ensures
        after_toggles(start, seq![enabled]).enabled == enabled,
{
    lemma_last_toggle_wins(start, seq![enabled]);
}

} // verus!
