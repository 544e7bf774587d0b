use super_tux_showdown::input::{
    ActionBuffer, ActionState, ActionStateInner, ActionTime, Direction, HeldInputs, InputAction,
    BUFFER_TIME, EVER_FRAMES,
};

fn released(t: u8) -> ActionStateInner {
    ActionStateInner::ReleasedFor(ActionTime(t))
}

fn pressed(t: u8) -> ActionStateInner {
    ActionStateInner::PressedFor(ActionTime(t))
}

#[test]
fn action_time_saturates() {
    let mut t = ActionTime(253);
    t.tick();
    assert_eq!(t, ActionTime(254));
    t.tick();
    assert_eq!(t, ActionTime(255));
    t.tick();
    assert_eq!(t, ActionTime(255));
    assert_eq!(ActionTime::just(), ActionTime(0));
    assert_eq!(ActionTime::ever(), ActionTime(EVER_FRAMES));
}

#[test]
fn window_boundaries() {
    assert!(pressed(0).in_window());
    assert!(pressed(200).in_window());
    assert!(released(0).in_window());
    assert!(released(BUFFER_TIME).in_window());
    assert!(!released(BUFFER_TIME + 1).in_window());
    assert!(!ActionStateInner::default().in_window());
}

#[test]
fn press_and_release() {
    let mut s = released(40);
    s.press();
    assert_eq!(s, pressed(0));
    let mut held = pressed(7);
    held.press();
    assert_eq!(held, pressed(7));
    held.release();
    assert_eq!(held, released(0));
    held.release();
    assert_eq!(held, released(0));
    assert!(pressed(1).is_pressed());
    assert!(!pressed(1).is_released());
    assert!(released(1).is_released());
}

#[test]
fn record_press_and_release_in_one_frame() {
    let mut s = released(30);
    s.record(true, true);
    assert_eq!(s, released(0));
    let mut t = released(30);
    t.record(true, false);
    assert_eq!(t, pressed(0));
    let mut u = pressed(3);
    u.record(false, false);
    assert_eq!(u, pressed(3));
}

#[test]
fn tap_action_buffer_window() {
    let mut s = ActionStateInner::default();
    s.press();
    assert!(s.in_window());
    for frame in 1..=(BUFFER_TIME as u32 + 1) {
        s.tick_tap();
        assert!(s.in_window(), "frame {frame}");
    }
    s.tick_tap();
    assert!(!s.in_window());
}

#[test]
fn held_action_window() {
    let mut s = ActionStateInner::just_pressed();
    for _ in 0..300 {
        s.tick_held();
        assert!(s.in_window());
    }
    assert_eq!(s, pressed(255));
    s.release();
    for _ in 0..BUFFER_TIME {
        s.tick_held();
        assert!(s.in_window());
    }
    s.tick_held();
    assert!(!s.in_window());
}

#[test]
fn action_state_tick_by_kind() {
    let mut held: ActionState<true> = ActionState::just_pressed();
    held.tick();
    assert_eq!(held.0, pressed(1));
    let mut tap: ActionState<false> = ActionState::just_pressed();
    tap.tick();
    assert_eq!(tap.0, released(0));
    let mut r: ActionState<false> = ActionState::just_released();
    r.tick();
    assert_eq!(r.0, released(1));
    assert_eq!(ActionState::<true>::default().0, ActionStateInner::default());
}

#[test]
fn try_consume_takes_first_buffered() {
    let mut b = ActionBuffer::default();
    b.jump.0 = released(3);
    b.fast_fall.0 = pressed(0);
    let got = b.try_consume(&[InputAction::FastFall, InputAction::Jump]);
    assert_eq!(got, Some(InputAction::FastFall));
    assert_eq!(b.jump.0, ActionStateInner::default());
    assert_eq!(b.fast_fall.0, ActionStateInner::default());
    assert_eq!(b.try_consume(&[InputAction::Jump, InputAction::FastFall]), None);
}

#[test]
fn try_consume_skips_unbuffered() {
    let mut b = ActionBuffer::default();
    b.jump.0 = released(BUFFER_TIME + 1);
    b.fast_fall.0 = released(BUFFER_TIME);
    assert_eq!(
        b.try_consume(&[InputAction::Jump, InputAction::FastFall]),
        Some(InputAction::FastFall)
    );
}

#[test]
fn try_consume_none_leaves_buffer() {
    let mut b = ActionBuffer::default();
    b.jump.0 = pressed(2);
    b.fast_fall.0 = released(20);
    assert_eq!(b.try_consume(&[InputAction::FastFall]), None);
    assert_eq!(b.jump.0, pressed(2));
    assert_eq!(b.fast_fall.0, released(20));
    assert_eq!(b.try_consume(&[]), None);
    assert_eq!(b.jump.0, pressed(2));
}

#[test]
fn buffer_tick_and_state_of() {
    let mut b = ActionBuffer::default();
    b.record_keys(true, false, true, false);
    assert_eq!(b.state_of(InputAction::Jump), pressed(0));
    assert_eq!(b.state_of(InputAction::FastFall), pressed(0));
    b.tick();
    assert_eq!(b.state_of(InputAction::Jump), pressed(1));
    assert_eq!(b.state_of(InputAction::FastFall), released(0));
    b.clear();
    assert_eq!(b.state_of(InputAction::Jump), ActionStateInner::default());
}

#[test]
fn held_direction_from_keys() {
    assert_eq!(HeldInputs::from_keys(true, false, false).direction, Direction::Left);
    assert_eq!(HeldInputs::from_keys(false, true, true).direction, Direction::Right);
    assert_eq!(HeldInputs::from_keys(true, true, false).direction, Direction::Neutral);
    assert_eq!(HeldInputs::from_keys(false, false, false).direction, Direction::Neutral);
    assert!(HeldInputs::from_keys(false, false, true).jump);
    assert_eq!(HeldInputs::default(), HeldInputs { direction: Direction::Neutral, jump: false });
}
