use super_tux_showdown::action::{
    launch_angle, player_movement, Action, AirJumpPush, Damping, Drive, Facing, GravityScale,
    Motion, Player, Vertical,
};
use super_tux_showdown::input::{
    ActionBuffer, ActionStateInner, ActionTime, Direction, HeldInputs, InputAction,
};

fn player(facing: Facing, coyote_frames: u8, jumps_left: u8) -> Player {
    Player { facing, coyote_frames, jumps_left }
}

fn held(direction: Direction, jump: bool) -> HeldInputs {
    HeldInputs { direction, jump }
}

fn buffer_with(jump: bool, fast_fall: bool) -> ActionBuffer {
    let mut b = ActionBuffer::default();
    if jump {
        b.jump.0 = ActionStateInner::PressedFor(ActionTime(0));
    }
    if fast_fall {
        b.fast_fall.0 = ActionStateInner::PressedFor(ActionTime(0));
    }
    b
}

fn motion(vertical: Vertical, drive: Drive, damping: Damping, gravity: GravityScale) -> Motion {
    Motion { vertical, air_jump: None, drive, damping, gravity }
}

fn is_clear(b: &ActionBuffer) -> bool {
    b.jump.0 == ActionStateInner::default() && b.fast_fall.0 == ActionStateInner::default()
}

#[test]
fn defaults() {
    assert_eq!(Player::default(), player(Facing::Right, 0, 1));
    assert_eq!(Action::default(), Action::Idle);
}

#[test]
fn allowed_inputs_by_action() {
    let p = player(Facing::Right, 0, 1);
    let none = player(Facing::Right, 0, 0);
    let coyote = player(Facing::Right, 2, 0);
    assert_eq!(Action::Idle.allowed(&p, false), &[InputAction::Jump]);
    assert_eq!(
        Action::Airborne { fast_fall: false }.allowed(&p, true),
        &[InputAction::Jump, InputAction::FastFall]
    );
    assert_eq!(Action::Airborne { fast_fall: false }.allowed(&p, false), &[InputAction::Jump]);
    assert_eq!(Action::Airborne { fast_fall: true }.allowed(&coyote, false), &[InputAction::Jump]);
    assert_eq!(Action::Airborne { fast_fall: false }.allowed(&none, true), &[InputAction::FastFall]);
    assert!(Action::Airborne { fast_fall: false }.allowed(&none, false).is_empty());
    assert!(Action::Jumpsquat { frames_left: 3, short: false }.allowed(&p, true).is_empty());
    assert!(Action::Hitstun { frames_left: 3 }.allowed(&p, true).is_empty());
    assert!(Action::Landing { frames_left: 3 }.allowed(&p, true).is_empty());
    assert_eq!(Action::Turnaround { frames_left: 3 }.allowed(&p, true), &[InputAction::Jump]);
}

#[test]
fn grounded_jump_starts_jumpsquat() {
    let mut a = Action::Idle;
    let mut p = player(Facing::Right, 0, 0);
    let mut b = buffer_with(true, false);
    let m = player_movement(&mut a, &mut p, &mut b, held(Direction::Neutral, true), true, true, false);
    assert_eq!(a, Action::Jumpsquat { frames_left: 5, short: false });
    assert_eq!(p, player(Facing::Right, 0, 1));
    assert!(is_clear(&b));
    assert_eq!(m, motion(Vertical::Keep, Drive::Still, Damping::Ground, GravityScale::Normal));
}

#[test]
fn jumpsquat_ends_in_full_or_short_hop() {
    let mut a = Action::Jumpsquat { frames_left: 1, short: false };
    let mut p = player(Facing::Right, 0, 1);
    let mut b = ActionBuffer::default();
    let m = player_movement(&mut a, &mut p, &mut b, held(Direction::Neutral, true), true, true, false);
    assert_eq!(a, Action::Airborne { fast_fall: false });
    assert_eq!(m.vertical, Vertical::FullHop);

    let mut a = Action::Jumpsquat { frames_left: 1, short: false };
    let m = player_movement(&mut a, &mut p, &mut b, held(Direction::Neutral, false), true, true, false);
    assert_eq!(a, Action::Airborne { fast_fall: false });
    assert_eq!(m.vertical, Vertical::ShortHop);

    let mut a = Action::Jumpsquat { frames_left: 3, short: false };
    let m = player_movement(&mut a, &mut p, &mut b, held(Direction::Neutral, false), true, true, false);
    assert_eq!(a, Action::Jumpsquat { frames_left: 2, short: true });
    assert_eq!(m, motion(Vertical::Keep, Drive::Still, Damping::Ground, GravityScale::Normal));
}

#[test]
fn walking_off_a_ledge_gives_coyote_time() {
    let mut a = Action::Idle;
    let mut p = player(Facing::Right, 0, 1);
    let mut b = ActionBuffer::default();
    let m = player_movement(&mut a, &mut p, &mut b, held(Direction::Right, false), false, true, false);
    assert_eq!(a, Action::Airborne { fast_fall: false });
    assert_eq!(p, player(Facing::Right, 4, 1));
    assert_eq!(m, motion(Vertical::Keep, Drive::Walk, Damping::Ground, GravityScale::Normal));
}

#[test]
fn coyote_jump_keeps_midair_jump() {
    let mut a = Action::Airborne { fast_fall: false };
    let mut p = player(Facing::Right, 3, 1);
    let mut b = buffer_with(true, false);
    let m = player_movement(&mut a, &mut p, &mut b, held(Direction::Left, true), false, true, true);
    assert_eq!(a, Action::Airborne { fast_fall: false });
    assert_eq!(p, player(Facing::Right, 0, 1));
    assert_eq!(m, motion(Vertical::FullHop, Drive::Drift, Damping::Air, GravityScale::Normal));
    assert!(is_clear(&b));
}

#[test]
fn midair_jump_spends_jump_and_pushes() {
    let mut a = Action::Airborne { fast_fall: false };
    let mut p = player(Facing::Right, 0, 1);
    let mut b = buffer_with(true, false);
    let m = player_movement(&mut a, &mut p, &mut b, held(Direction::Left, true), false, true, true);
    assert_eq!(p.jumps_left, 0);
    assert_eq!(m.air_jump, Some(AirJumpPush::Reverse));
    assert_eq!(m.vertical, Vertical::FullHop);

    let mut a = Action::Airborne { fast_fall: true };
    let mut p = player(Facing::Right, 0, 1);
    let mut b = buffer_with(true, false);
    let m = player_movement(&mut a, &mut p, &mut b, held(Direction::Right, true), false, false, true);
    assert_eq!(a, Action::Airborne { fast_fall: false });
    assert_eq!(m.air_jump, Some(AirJumpPush::Carry));
    assert_eq!(m.gravity, GravityScale::FastFall);
    assert_eq!(m.vertical, Vertical::FullHop);
}

#[test]
fn fast_fall_only_when_falling() {
    let mut a = Action::Airborne { fast_fall: false };
    let mut p = player(Facing::Right, 0, 0);
    let mut b = buffer_with(false, true);
    player_movement(&mut a, &mut p, &mut b, held(Direction::Neutral, false), false, true, false);
    assert_eq!(a, Action::Airborne { fast_fall: true });
    let m = player_movement(&mut a, &mut p, &mut b, held(Direction::Neutral, false), false, true, false);
    assert_eq!(m, motion(Vertical::FastFall, Drive::Drift, Damping::Air, GravityScale::FastFall));

    let mut a = Action::Airborne { fast_fall: false };
    let mut b = buffer_with(true, true);
    player_movement(&mut a, &mut p, &mut b, held(Direction::Neutral, false), false, false, false);
    assert_eq!(a, Action::Airborne { fast_fall: false });
    assert!(!is_clear(&b));
}

#[test]
fn landing_and_landing_lag() {
    let mut a = Action::Airborne { fast_fall: true };
    let mut p = player(Facing::Left, 0, 0);
    let mut b = buffer_with(true, false);
    let m = player_movement(&mut a, &mut p, &mut b, held(Direction::Neutral, false), true, true, false);
    assert_eq!(a, Action::Landing { frames_left: 3 });
    assert_eq!(p, player(Facing::Left, 0, 1));
    assert_eq!(m, motion(Vertical::FastFall, Drive::Drift, Damping::Air, GravityScale::FastFall));
    assert!(!is_clear(&b));

    let mut a = Action::Landing { frames_left: 1 };
    player_movement(&mut a, &mut p, &mut b, held(Direction::Neutral, false), true, true, false);
    assert_eq!(a, Action::Jumpsquat { frames_left: 5, short: false });

    let mut a = Action::Landing { frames_left: 2 };
    let mut b = ActionBuffer::default();
    player_movement(&mut a, &mut p, &mut b, held(Direction::Neutral, false), false, true, false);
    assert_eq!(a, Action::Airborne { fast_fall: false });
}

#[test]
fn hitstun_counts_down() {
    let mut p = player(Facing::Right, 0, 1);
    let mut b = ActionBuffer::default();
    let mut a = Action::Hitstun { frames_left: 2 };
    let m = player_movement(&mut a, &mut p, &mut b, held(Direction::Neutral, false), false, true, false);
    assert_eq!(a, Action::Hitstun { frames_left: 1 });
    assert_eq!(m, motion(Vertical::Keep, Drive::Still, Damping::Air, GravityScale::Normal));
    player_movement(&mut a, &mut p, &mut b, held(Direction::Neutral, false), false, true, false);
    assert_eq!(a, Action::Airborne { fast_fall: false });
    let mut a = Action::Hitstun { frames_left: 9 };
    player_movement(&mut a, &mut p, &mut b, held(Direction::Neutral, false), true, true, false);
    assert_eq!(a, Action::Landing { frames_left: 10 });
}

#[test]
fn turnaround_flips_facing() {
    let mut b = ActionBuffer::default();
    let mut a = Action::Idle;
    let mut p = player(Facing::Right, 0, 1);
    player_movement(&mut a, &mut p, &mut b, held(Direction::Left, false), true, true, false);
    assert_eq!(a, Action::Turnaround { frames_left: 11 });
    for left in (6..=10).rev() {
        player_movement(&mut a, &mut p, &mut b, held(Direction::Left, false), true, true, false);
        assert_eq!(a, Action::Turnaround { frames_left: left });
        assert_eq!(p.facing, Facing::Right);
    }
    player_movement(&mut a, &mut p, &mut b, held(Direction::Left, false), true, true, false);
    assert_eq!(a, Action::Turnaround { frames_left: 5 });
    assert_eq!(p.facing, Facing::Left);
    for _ in 0..4 {
        player_movement(&mut a, &mut p, &mut b, held(Direction::Left, false), true, true, false);
    }
    assert_eq!(a, Action::Turnaround { frames_left: 1 });
    let m = player_movement(&mut a, &mut p, &mut b, held(Direction::Left, false), true, true, false);
    assert_eq!(a, Action::Idle);
    assert_eq!(m.drive, Drive::Still);
    let m = player_movement(&mut a, &mut p, &mut b, held(Direction::Left, false), true, true, false);
    assert_eq!(a, Action::Idle);
    assert_eq!(m.drive, Drive::Walk);
}

#[test]
fn turnaround_interrupted() {
    let mut b = buffer_with(true, false);
    let mut a = Action::Turnaround { frames_left: 8 };
    let mut p = player(Facing::Right, 0, 1);
    player_movement(&mut a, &mut p, &mut b, held(Direction::Left, false), true, true, false);
    assert_eq!(a, Action::Jumpsquat { frames_left: 5, short: false });
    let mut b = ActionBuffer::default();
    let mut a = Action::Turnaround { frames_left: 8 };
    player_movement(&mut a, &mut p, &mut b, held(Direction::Left, false), false, true, false);
    assert_eq!(a, Action::Airborne { fast_fall: false });
}

#[test]
fn idle_turning_midair_starts_turnaround() {
    let mut b = ActionBuffer::default();
    let mut a = Action::Idle;
    let mut p = player(Facing::Right, 0, 1);
    player_movement(&mut a, &mut p, &mut b, held(Direction::Left, false), false, true, false);
    assert_eq!(a, Action::Turnaround { frames_left: 11 });
    assert_eq!(p.coyote_frames, 4);
}

#[test]
fn hitstun_is_capped() {
    assert_eq!(Action::hitstun_for(0), Action::Hitstun { frames_left: 0 });
    assert_eq!(Action::hitstun_for(37), Action::Hitstun { frames_left: 37 });
    assert_eq!(Action::hitstun_for(255), Action::Hitstun { frames_left: 255 });
    assert_eq!(Action::hitstun_for(256), Action::Hitstun { frames_left: 255 });
    assert_eq!(Action::hitstun_for(u32::MAX), Action::Hitstun { frames_left: 255 });
}

#[test]
fn launch_angles() {
    assert_eq!(launch_angle(45, false), 45);
    assert_eq!(launch_angle(45, true), 135);
    assert_eq!(launch_angle(180, true), 0);
    assert_eq!(launch_angle(0, true), 180);
    assert_eq!(launch_angle(355, false), 355);
}

#[test]
fn facing_helpers() {
    let mut f = Facing::Left;
    f.flip();
    assert_eq!(f, Facing::Right);
    assert!(f.agrees_with(Direction::Right));
    assert!(!f.agrees_with(Direction::Left));
    assert!(!f.agrees_with(Direction::Neutral));
}

#[test]
fn counters_must_be_positive_to_advance() {
    assert!(Action::Idle.can_advance());
    assert!(Action::Airborne { fast_fall: true }.can_advance());
    assert!(Action::Hitstun { frames_left: 1 }.can_advance());
    assert!(!Action::Hitstun { frames_left: 0 }.can_advance());
    assert!(!Action::Jumpsquat { frames_left: 0, short: true }.can_advance());
    assert!(!Action::Landing { frames_left: 0 }.can_advance());
    assert!(!Action::Turnaround { frames_left: 0 }.can_advance());
}
