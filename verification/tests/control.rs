use ragdoll_playground::control::{keyboard_direction, set_time, MoveDirection, TimeAction};

#[test]
fn single_keys_point_their_way() {
    assert_eq!(keyboard_direction(true, false, false, false), MoveDirection { x: 0, y: 1 });
    assert_eq!(keyboard_direction(false, true, false, false), MoveDirection { x: 0, y: -1 });
    assert_eq!(keyboard_direction(false, false, true, false), MoveDirection { x: -1, y: 0 });
    assert_eq!(keyboard_direction(false, false, false, true), MoveDirection { x: 1, y: 0 });
    assert_eq!(keyboard_direction(true, false, false, true), MoveDirection { x: 1, y: 1 });
}

#[test]
fn opposite_keys_cancel() {
    let d = keyboard_direction(true, true, true, true);
    assert_eq!(d, MoveDirection { x: 0, y: 0 });
    assert!(!d.is_moving());
    assert!(!keyboard_direction(false, false, false, false).is_moving());
    assert!(keyboard_direction(true, true, false, true).is_moving());
}

#[test]
fn space_toggles_the_clock() {
    assert_eq!(set_time(true, true), TimeAction::Unpause);
    assert_eq!(set_time(true, false), TimeAction::Pause);
    assert_eq!(set_time(false, true), TimeAction::Keep);
    assert_eq!(set_time(false, false), TimeAction::Keep);
}

fn apply(paused: bool, a: TimeAction) -> bool {
    match a {
        TimeAction::Pause => true,
        TimeAction::Unpause => false,
        TimeAction::Keep => paused,
    }
}

#[test]
fn two_presses_restore_the_clock() {
    for paused in [false, true] {
        let once = apply(paused, set_time(true, paused));
        assert_ne!(once, paused);
        assert_eq!(apply(once, set_time(true, once)), paused);
    }
}

#[test]
fn paused_after_spawn_until_space() {
    let stopped = apply(false, TimeAction::Pause);
    assert!(stopped);
    assert!(apply(stopped, set_time(false, stopped)));
    assert!(!apply(stopped, set_time(true, stopped)));
}
