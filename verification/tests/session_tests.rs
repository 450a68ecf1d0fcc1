use tugboat::session::{IdleDurations, SessionError, TickOutcome, IDLE_LEAVE_THRESHOLD};

#[test]
fn join_then_query() {
    let mut registry = IdleDurations::new();
    assert!(!registry.is_connected(1));
    assert_eq!(registry.join(1, 10), Ok(()));
    assert!(registry.is_connected(1));
    assert_eq!(registry.current_channel(1), Some(10));
    assert_eq!(registry.idle_minutes(1), Some(0));
}

#[test]
fn second_join_rejected_and_channel_unchanged() {
    let mut registry = IdleDurations::new();
    assert_eq!(registry.join(1, 10), Ok(()));
    assert_eq!(registry.join(1, 99), Err(SessionError::AlreadyConnected));
    assert_eq!(registry.current_channel(1), Some(10));
    assert_eq!(registry.join(1, 10), Err(SessionError::AlreadyConnected));
    assert_eq!(registry.current_channel(1), Some(10));
}

#[test]
fn leave_without_session_is_rejected_no_op() {
    let mut registry = IdleDurations::new();
    match registry.leave(1) {
        Err(e) => assert_eq!(e, SessionError::NotConnected),
        Ok(_) => panic!("leave of an unconnected guild must be rejected"),
    }
    assert!(!registry.is_connected(1));
}

#[test]
fn leave_hands_back_the_session() {
    let mut registry = IdleDurations::new();
    assert_eq!(registry.join(1, 10), Ok(()));
    assert_eq!(registry.note_enqueued(1, 5), Ok(()));
    assert_eq!(registry.note_enqueued(1, 6), Ok(()));
    match registry.leave(1) {
        Ok(session) => {
            assert_eq!(session.channel_id(), 10);
            assert_eq!(session.pending_tracks().as_slice(), &[5, 6]);
        }
        Err(_) => panic!("leave of a connected guild must succeed"),
    }
    assert!(!registry.is_connected(1));
}

#[test]
fn ticks_count_up_then_auto_leave_then_halt() {
    let mut registry = IdleDurations::new();
    assert_eq!(registry.join(1, 10), Ok(()));
    for expected in 1..IDLE_LEAVE_THRESHOLD {
        match registry.tick(1) {
            TickOutcome::Ticked { idle_minutes } => assert_eq!(idle_minutes, expected),
            _ => panic!("tick below the threshold must keep the session"),
        }
        assert_eq!(registry.idle_minutes(1), Some(expected));
    }
    match registry.tick(1) {
        TickOutcome::AutoLeave { session } => assert_eq!(session.channel_id(), 10),
        _ => panic!("the tick reaching the threshold must auto-leave"),
    }
    assert!(!registry.is_connected(1));
    match registry.tick(1) {
        TickOutcome::NoSession => {}
        _ => panic!("ticks after the auto-leave must do nothing"),
    }
}

#[test]
fn enqueue_resets_idle_counter() {
    let mut registry = IdleDurations::new();
    assert_eq!(registry.join(1, 10), Ok(()));
    for _ in 0..3 {
        registry.tick(1);
    }
    assert_eq!(registry.idle_minutes(1), Some(3));
    assert_eq!(registry.note_enqueued(1, 77), Ok(()));
    assert_eq!(registry.idle_minutes(1), Some(0));
    match registry.tick(1) {
        TickOutcome::Ticked { idle_minutes } => assert_eq!(idle_minutes, 1),
        _ => panic!("counting must restart after the reset"),
    }
}

#[test]
fn enqueue_without_session_is_rejected() {
    let mut registry = IdleDurations::new();
    assert_eq!(registry.note_enqueued(1, 77), Err(SessionError::NotConnected));
}

#[test]
fn track_end_releases_pending_resource_once() {
    let mut registry = IdleDurations::new();
    assert_eq!(registry.join(1, 10), Ok(()));
    assert_eq!(registry.note_enqueued(1, 5), Ok(()));
    for _ in 0..2 {
        registry.tick(1);
    }
    assert!(registry.note_track_ended(1, 5));
    assert_eq!(registry.idle_minutes(1), Some(0));
    assert!(!registry.note_track_ended(1, 5));
}

#[test]
fn track_end_without_session_releases_nothing() {
    let mut registry = IdleDurations::new();
    assert!(!registry.note_track_ended(1, 5));
}

#[test]
fn guilds_are_independent() {
    let mut registry = IdleDurations::new();
    assert_eq!(registry.join(1, 10), Ok(()));
    assert_eq!(registry.join(2, 20), Ok(()));
    assert_eq!(registry.current_channel(1), Some(10));
    assert_eq!(registry.current_channel(2), Some(20));
    registry.tick(1);
    assert_eq!(registry.idle_minutes(2), Some(0));
    assert!(registry.leave(1).is_ok());
    assert!(!registry.is_connected(1));
    assert_eq!(registry.current_channel(2), Some(20));
}
