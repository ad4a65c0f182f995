use alto::pause::PauseCount;

#[test]
fn the_first_guard_pauses_and_the_last_resumes() {
    let mut count = PauseCount::new();
    assert_eq!(count.guards(), 0);
    assert!(!count.is_paused());
    assert_eq!(count.acquire(), Some(true));
    assert!(count.is_pending());
    count.confirm(true);
    assert!(count.is_paused());
    assert_eq!(count.acquire(), Some(false));
    assert_eq!(count.acquire(), Some(false));
    assert_eq!(count.guards(), 3);
    assert_eq!(count.release(), Some(false));
    assert!(count.is_paused());
    assert_eq!(count.release(), Some(false));
    assert!(count.is_paused());
    assert_eq!(count.release(), Some(true));
    assert_eq!(count.guards(), 0);
    assert!(!count.is_paused());
}

#[test]
fn no_guard_can_be_released_where_none_stands() {
    let mut count = PauseCount::new();
    assert_eq!(count.release(), None);
    assert_eq!(count.guards(), 0);
    assert_eq!(count.acquire(), Some(true));
}

#[test]
fn two_guards_made_and_one_dropped_leave_the_device_paused() {
    let mut count = PauseCount::new();
    assert_eq!(count.acquire(), Some(true));
    count.confirm(true);
    assert_eq!(count.acquire(), Some(false));
    assert_eq!(count.release(), Some(false));
    assert_eq!(count.guards(), 1);
    assert!(count.is_paused());
    assert_eq!(count.release(), Some(true));
    assert!(!count.is_paused());
    assert_eq!(count.acquire(), Some(true));
}

#[test]
fn a_failed_native_pause_is_rolled_back() {
    let mut count = PauseCount::new();
    assert_eq!(count.acquire(), Some(true));
    assert_eq!(count.guards(), 1);
    count.confirm(false);
    assert_eq!(count.guards(), 0);
    assert!(!count.is_paused());
    assert!(!count.is_pending());
    assert_eq!(count.release(), None);
}

#[test]
fn nothing_is_counted_while_a_pause_is_pending() {
    let mut count = PauseCount::new();
    assert_eq!(count.acquire(), Some(true));
    assert_eq!(count.acquire(), None);
    assert_eq!(count.release(), None);
    assert_eq!(count.guards(), 1);
    assert!(count.is_pending());
    assert!(!count.is_paused());
}

#[test]
fn confirming_without_a_pending_pause_changes_nothing() {
    let mut count = PauseCount::new();
    count.confirm(true);
    assert_eq!(count.guards(), 0);
    assert!(!count.is_paused());
    assert_eq!(count.acquire(), Some(true));
    count.confirm(true);
    count.confirm(false);
    assert_eq!(count.guards(), 1);
    assert!(count.is_paused());
}
