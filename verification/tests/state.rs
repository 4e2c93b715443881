use weather_notifier::error::BackendError;
use weather_notifier::state::{get_notification_state, toggle_notification, NotificationState};

#[test]
fn notifications_are_off_at_launch() {
    assert!(!NotificationState::new().is_enabled());
    assert!(!NotificationState::default().enabled);
    let state = NotificationState::new();
    assert_eq!(get_notification_state(Ok(&state)), Ok(false));
}

#[test]
fn toggle_on_then_read_gives_on() {
    let mut state = NotificationState::new();
    assert_eq!(toggle_notification(Ok(&mut state), true), Ok(()));
    assert_eq!(get_notification_state(Ok(&state)), Ok(true));
}

#[test]
fn last_toggle_wins() {
    let runs: [&[bool]; 5] = [
        &[true],
        &[false],
        &[true, true, false],
        &[false, true, false, true],
        &[true, false, false, true, true, false, true],
    ];
    for run in runs {
        let mut state = NotificationState::new();
        for enabled in run {
            assert_eq!(toggle_notification(Ok(&mut state), *enabled), Ok(()));
            assert_eq!(get_notification_state(Ok(&state)), Ok(*enabled));
        }
        assert_eq!(state.is_enabled(), *run.last().unwrap());
    }
}

#[test]
fn set_enabled_overwrites() {
    let mut state = NotificationState { enabled: true };
    state.set_enabled(true);
    assert!(state.is_enabled());
    state.set_enabled(false);
    assert!(!state.is_enabled());
}

#[test]
fn poisoned_lock_is_a_lock_error() {
    let words = "poisoned lock: another task failed inside".to_string();
    assert_eq!(
        toggle_notification(Err(words.clone()), true),
        Err(BackendError::Lock(words.clone()))
    );
    assert_eq!(get_notification_state(Err(words.clone())), Err(BackendError::Lock(words.clone())));
    assert_eq!(BackendError::Lock(words.clone()).message(), words);
}

#[test]
fn state_behind_a_real_lock() {
    let store = std::sync::Mutex::new(NotificationState::new());
    {
        let mut guard = store.lock().unwrap();
        assert_eq!(toggle_notification(Ok(&mut *guard), true), Ok(()));
    }
    let guard = store.lock().unwrap();
    assert_eq!(get_notification_state(Ok(&*guard)), Ok(true));
}
