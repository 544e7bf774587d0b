//! The fighter's action state machine: what a player is doing, how each
//! fixed frame advances it, which buffered inputs it accepts, and what that
//! asks of the player's velocity.

use vstd::prelude::*;

use crate::input::{ActionBuffer, Direction, HeldInputs, InputAction};

verus! {

/// Frames between a jump input and leaving the ground.
pub const JUMPSQUAT_FRAMES: u8 = 5;

/// Frames a ground turnaround lasts.
pub const TURNAROUND_FRAMES: u8 = 11;

/// Remaining turnaround frames at which the fighter's facing flips.
pub const TURN_FLIP_FRAME: u8 = 5;

/// Landing lag after an aerial state touches the ground.
pub const LANDING_FRAMES: u8 = 3;

/// Landing lag when hitstun ends on the ground.
pub const HITSTUN_LANDING_FRAMES: u8 = 10;

/// Frames during which a player who walked off a ledge may still jump.
pub const COYOTE_FRAMES: u8 = 4;

/// The longest hitstun a launch can cause.
pub const MAX_HITSTUN_FRAMES: u8 = 255;

/// Which way a fighter faces.
#[derive(Clone, Copy, Debug, PartialEq, Eq, Structural)]
pub enum Facing {
    Left,
    Right,
}

impl Facing {
    pub open spec fn opposite(self) -> Facing {
        match self {
            Facing::Left => Facing::Right,
            Facing::Right => Facing::Left,
        }
    }

    /// Whether a held direction points the way the fighter faces.
    pub open spec fn agrees(self, direction: Direction) -> bool {
        match direction {
            Direction::Left => self == Facing::Left,
            Direction::Right => self == Facing::Right,
            Direction::Neutral => false,
        }
    }

    /// Turns the fighter around.
    pub fn flip(&mut self)
        ensures
            *final(self) == old(self).opposite(),
    {
        *self = match *self {
            Facing::Left => Facing::Right,
            Facing::Right => Facing::Left,
        };
    }

    /// Whether a held direction points the way the fighter faces.
    pub fn agrees_with(&self, direction: Direction) -> (b: bool)
        ensures
            b == self.agrees(direction),
    {
        match direction {
            Direction::Left => *self == Facing::Left,
            Direction::Right => *self == Facing::Right,
            Direction::Neutral => false,
        }
    }
}

/// The jump resources and facing of a fighter.
#[derive(Clone, Copy, Debug, PartialEq, Eq, Structural)]
pub struct Player {
    pub facing: Facing,
    pub coyote_frames: u8,
    /// Midair jumps left.
    pub jumps_left: u8,
}

impl Default for Player {
    fn default() -> (p: Self)
        ensures
            p == (Player { facing: Facing::Right, coyote_frames: 0, jumps_left: 1 }),
    {
        Player { facing: Facing::Right, coyote_frames: 0, jumps_left: 1 }
    }
}

impl Player {
    /// Coyote time runs down by one frame; on the ground it is gone and the
    /// midair jump comes back.
    pub open spec fn refreshed(self, grounded: bool) -> Player {
        if grounded {
            Player { coyote_frames: 0, jumps_left: 1, ..self }
        } else {
            Player {
                coyote_frames: if self.coyote_frames == 0 {
                    0
                } else {
                    (self.coyote_frames - 1) as u8
                },
                ..self
            }
        }
    }

    /// Whether a jump is available in the air.
    pub open spec fn can_air_jump(self) -> bool {
        self.jumps_left > 0 || self.coyote_frames > 0
    }
}

/// What a fighter is doing.
#[derive(Clone, Copy, Debug, PartialEq, Eq, Structural)]
pub enum Action {
    Idle,
    Airborne { fast_fall: bool },
    Jumpsquat { frames_left: u8, short: bool },
    Hitstun { frames_left: u8 },
    Landing { frames_left: u8 },
    Turnaround { frames_left: u8 },
}

impl Default for Action {
    fn default() -> (a: Self)
        ensures
            a == Action::Idle,
    {
        Action::Idle
    }
}

/// How a frame sets the vertical velocity.
#[derive(Clone, Copy, Debug, PartialEq, Eq, Structural)]
pub enum Vertical {
    /// Left as it is.
    Keep,
    /// Set to the fast-fall speed (downwards).
    FastFall,
    /// Set to the short-hop speed (upwards).
    ShortHop,
    /// Set to the full-jump speed (upwards).
    FullHop,
}

/// How the held direction drives the horizontal velocity.
#[derive(Clone, Copy, Debug, PartialEq, Eq, Structural)]
pub enum Drive {
    /// Not at all.
    Still,
    /// At walking strength.
    Walk,
    /// At the weaker midair strength.
    Drift,
}

/// How strongly velocity decays.
#[derive(Clone, Copy, Debug, PartialEq, Eq, Structural)]
pub enum Damping {
    Ground,
    Air,
}

/// How strongly gravity pulls.
#[derive(Clone, Copy, Debug, PartialEq, Eq, Structural)]
pub enum GravityScale {
    Normal,
    FastFall,
}

/// The horizontal push of a midair jump.
#[derive(Clone, Copy, Debug, PartialEq, Eq, Structural)]
pub enum AirJumpPush {
    /// Against a fast rightward motion: a strong push.
    Reverse,
    /// Otherwise: a weak push.
    Carry,
}

/// What one frame of the state machine asks of the velocity.
#[derive(Clone, Copy, Debug, PartialEq, Eq, Structural)]
pub struct Motion {
    pub vertical: Vertical,
    pub air_jump: Option<AirJumpPush>,
    pub drive: Drive,
    pub damping: Damping,
    pub gravity: GravityScale,
}

impl Motion {
    /// Whether the fighter moves downwards (or barely up) once `vertical`
    /// has been applied, given whether it did before.
    pub open spec fn falls_after(self, falling: bool) -> bool {
        match self.vertical {
            Vertical::Keep => falling,
            Vertical::FastFall => true,
            Vertical::ShortHop => false,
            Vertical::FullHop => false,
        }
    }
}

pub open spec fn motion(vertical: Vertical, drive: Drive, damping: Damping, gravity: GravityScale) -> Motion {
    Motion { vertical, air_jump: None, drive, damping, gravity }
}

impl Action {
    /// Every frame counter is positive, so the next frame can count down.
    pub open spec fn well_formed(self) -> bool {
        match self {
            Action::Jumpsquat { frames_left, .. } => frames_left >= 1,
            Action::Hitstun { frames_left } => frames_left >= 1,
            Action::Landing { frames_left } => frames_left >= 1,
            Action::Turnaround { frames_left } => frames_left >= 1,
            _ => true,
        }
    }

    /// The inputs this action accepts, in order of preference. `falling`
    /// says whether the vertical velocity is at most slightly upwards.
    pub open spec fn accepts(self, player: Player, falling: bool) -> Seq<InputAction> {
        match self {
            Action::Idle => seq![InputAction::Jump],
            Action::Airborne { .. } => {
                let jump = player.can_air_jump();
                if jump && falling {
                    seq![InputAction::Jump, InputAction::FastFall]
                } else if jump {
                    seq![InputAction::Jump]
                } else if falling {
                    seq![InputAction::FastFall]
                } else {
                    seq![]
                }
            },
            Action::Turnaround { .. } => seq![InputAction::Jump],
            _ => seq![],
        }
    }

    /// One frame of the action itself, before inputs: the next action, the
    /// player, and what it asks of the velocity. `player` has already been
    /// refreshed for this frame.
    pub open spec fn advanced(self, player: Player, held: HeldInputs, grounded: bool) -> (
        Action,
        Player,
        Motion,
    ) {
        match self {
            Action::Idle => {
                let airborne = !grounded;
                let p = if airborne {
                    Player { coyote_frames: COYOTE_FRAMES, ..player }
                } else {
                    player
                };
                let base = if airborne {
                    Action::Airborne { fast_fall: false }
                } else {
                    Action::Idle
                };
                if held.direction == Direction::Neutral {
                    (base, p, motion(Vertical::Keep, Drive::Still, Damping::Ground, GravityScale::Normal))
                } else if !player.facing.agrees(held.direction) {
                    (
                        Action::Turnaround { frames_left: TURNAROUND_FRAMES },
                        p,
                        motion(Vertical::Keep, Drive::Still, Damping::Ground, GravityScale::Normal),
                    )
                } else {
                    (base, p, motion(Vertical::Keep, Drive::Walk, Damping::Ground, GravityScale::Normal))
                }
            },
            Action::Airborne { fast_fall } => {
                let next = if grounded {
                    Action::Landing { frames_left: LANDING_FRAMES }
                } else {
                    self
                };
                let m = if fast_fall {
                    motion(Vertical::FastFall, Drive::Drift, Damping::Air, GravityScale::FastFall)
                } else {
                    motion(Vertical::Keep, Drive::Drift, Damping::Air, GravityScale::Normal)
                };
                (next, player, m)
            },
            Action::Jumpsquat { frames_left, short } => {
                let short = short || !held.jump;
                let left = frames_left - 1;
                if left == 0 {
                    let v = if short {
                        Vertical::ShortHop
                    } else {
                        Vertical::FullHop
                    };
                    (
                        Action::Airborne { fast_fall: false },
                        player,
                        motion(v, Drive::Still, Damping::Ground, GravityScale::Normal),
                    )
                } else {
                    (
                        Action::Jumpsquat { frames_left: left as u8, short },
                        player,
                        motion(Vertical::Keep, Drive::Still, Damping::Ground, GravityScale::Normal),
                    )
                }
            },
            Action::Hitstun { frames_left } => {
                let left = frames_left - 1;
                let next = if grounded {
                    Action::Landing { frames_left: HITSTUN_LANDING_FRAMES }
                } else if left == 0 {
                    Action::Airborne { fast_fall: false }
                } else {
                    Action::Hitstun { frames_left: left as u8 }
                };
                (next, player, motion(Vertical::Keep, Drive::Still, Damping::Air, GravityScale::Normal))
            },
            Action::Landing { frames_left } => {
                let left = frames_left - 1;
                let next = if !grounded {
                    Action::Airborne { fast_fall: false }
                } else if left == 0 {
                    Action::Idle
                } else {
                    Action::Landing { frames_left: left as u8 }
                };
                (next, player, motion(Vertical::Keep, Drive::Still, Damping::Ground, GravityScale::Normal))
            },
            Action::Turnaround { frames_left } => {
                let left = frames_left - 1;
                let m = motion(Vertical::Keep, Drive::Still, Damping::Ground, GravityScale::Normal);
                if !grounded {
                    (Action::Airborne { fast_fall: false }, player, m)
                } else if left == TURN_FLIP_FRAME {
                    (
                        Action::Turnaround { frames_left: left as u8 },
                        Player { facing: player.facing.opposite(), ..player },
                        m,
                    )
                } else if left == 0 {
                    (Action::Idle, player, m)
                } else {
                    (Action::Turnaround { frames_left: left as u8 }, player, m)
                }
            },
        }
    }

    /// The effect of a consumed input on the action, the player and the
    /// motion. `moving_right` says whether the fighter moves right faster
    /// than a small threshold.
    pub open spec fn responded(
        self,
        player: Player,
        m: Motion,
        input: Option<InputAction>,
        held: HeldInputs,
        moving_right: bool,
    ) -> (Action, Player, Motion) {
        match (self, input) {
            (Action::Idle, Some(InputAction::Jump)) | (Action::Turnaround { .. }, Some(InputAction::Jump)) => (
                Action::Jumpsquat { frames_left: JUMPSQUAT_FRAMES, short: false },
                player,
                m,
            ),
            (Action::Airborne { .. }, Some(InputAction::Jump)) => {
                if player.coyote_frames > 0 {
                    (
                        Action::Airborne { fast_fall: false },
                        Player { coyote_frames: 0, ..player },
                        Motion { vertical: Vertical::FullHop, ..m },
                    )
                } else {
                    let push = if held.direction == Direction::Left && moving_right {
                        AirJumpPush::Reverse
                    } else {
                        AirJumpPush::Carry
                    };
                    (
                        Action::Airborne { fast_fall: false },
                        Player { jumps_left: (player.jumps_left - 1) as u8, ..player },
                        Motion { vertical: Vertical::FullHop, air_jump: Some(push), ..m },
                    )
                }
            },
            (Action::Airborne { .. }, Some(InputAction::FastFall)) => (
                Action::Airborne { fast_fall: true },
                player,
                m,
            ),
            _ => (self, player, m),
        }
    }

    /// Whether every frame counter is positive, so that the action can
    /// advance.
    pub fn can_advance(&self) -> (b: bool)
        ensures
            b == self.well_formed(),
    {
        match self {
            Action::Jumpsquat { frames_left, .. } => *frames_left >= 1,
            Action::Hitstun { frames_left } => *frames_left >= 1,
            Action::Landing { frames_left } => *frames_left >= 1,
            Action::Turnaround { frames_left } => *frames_left >= 1,
            _ => true,
        }
    }

    /// The inputs this action accepts, in order of preference. `falling`
    /// says whether the vertical velocity is at most slightly upwards.
    pub fn allowed(&self, player: &Player, falling: bool) -> (r: &'static [InputAction])
        ensures
            r@ == self.accepts(*player, falling),
            (*self is Jumpsquat || *self is Hitstun || *self is Landing) ==> r@.len() == 0,
            (*self is Idle || *self is Turnaround) ==> r@ == seq![InputAction::Jump],
            (*self is Airborne) ==> (r@.contains(InputAction::Jump) <==> (player.jumps_left > 0 || player.coyote_frames > 0)),
            (*self is Airborne) ==> (r@.contains(InputAction::FastFall) <==> falling),
            (*self is Airborne) ==> r@.len() <= 2 && (r@.len() == 2 ==> r@[0] == InputAction::Jump && r@[1] == InputAction::FastFall),
    {
        match self {
            Action::Idle => &[InputAction::Jump],
            Action::Airborne { .. } => {
                let jump = player.jumps_left > 0 || player.coyote_frames > 0;
                if jump && falling {
                    &[InputAction::Jump, InputAction::FastFall]
                } else if jump {
                    &[InputAction::Jump]
                } else if falling {
                    &[InputAction::FastFall]
                } else {
                    &[]
                }
            },
            Action::Jumpsquat { .. } => &[],
            Action::Hitstun { .. } => &[],
            Action::Landing { .. } => &[],
            Action::Turnaround { .. } => &[InputAction::Jump],
        }
    }
}


/// The input a frame consumes: the first buffered one that the advanced
/// action accepts.
pub open spec fn consumed(
    action: Action,
    player: Player,
    buffer: ActionBuffer,
    held: HeldInputs,
    grounded: bool,
    falling: bool,
) -> Option<InputAction> {
    let (a1, p1, m1) = action.advanced(player.refreshed(grounded), held, grounded);
    buffer.first_buffered(a1.accepts(p1, m1.falls_after(falling)))
}

/// One whole frame: refresh, advance, respond to the consumed input.
pub open spec fn step(
    action: Action,
    player: Player,
    buffer: ActionBuffer,
    held: HeldInputs,
    grounded: bool,
    falling: bool,
    moving_right: bool,
) -> (Action, Player, Motion) {
    let (a1, p1, m1) = action.advanced(player.refreshed(grounded), held, grounded);
    let input = consumed(action, player, buffer, held, grounded, falling);
    a1.responded(p1, m1, input, held, moving_right)
}

/// One fixed frame of a fighter: the jump resources refresh, the action
/// advances, then the first buffered input that the action accepts is
/// consumed. `grounded` says whether the fighter touches the ground,
/// `falling` whether its vertical velocity is at most slightly upwards, and
/// `moving_right` whether it moves right faster than a small threshold. The
/// result says how to update the velocity.
pub fn player_movement(
    action: &mut Action,
    player: &mut Player,
    buffer: &mut ActionBuffer,
    held: HeldInputs,
    grounded: bool,
    falling: bool,
    moving_right: bool,
) -> (m: Motion)
    requires
        old(action).well_formed(),
    ensures
        (*final(action), *final(player), m) == step(*old(action), *old(player), *old(buffer), held, grounded, falling, moving_right),
        consumed(*old(action), *old(player), *old(buffer), held, grounded, falling) is Some ==> final(buffer).is_clear(),
        consumed(*old(action), *old(player), *old(buffer), held, grounded, falling) is None ==> (final(buffer).jump == old(buffer).jump && final(buffer).fast_fall == old(buffer).fast_fall),
        final(action).well_formed(),
        m.air_jump is Some ==> (old(player).refreshed(grounded).coyote_frames == 0 && final(player).jumps_left + 1 == old(player).refreshed(grounded).jumps_left),
        grounded ==> final(player).coyote_frames == 0,
        final(player).jumps_left <= (if grounded { 1 } else { old(player).jumps_left }),
        final(player).facing != old(player).facing ==> (grounded && *old(action) == (Action::Turnaround { frames_left: (TURN_FLIP_FRAME + 1) as u8 })),
        (grounded && (*old(action)) is Airborne) ==> *final(action) == (Action::Landing { frames_left: LANDING_FRAMES }),
        (grounded && (*old(action)) is Hitstun) ==> *final(action) == (Action::Landing { frames_left: HITSTUN_LANDING_FRAMES }),
        (!grounded && ((*old(action)) is Landing || (*old(action)) is Turnaround)) ==> ((*final(action)) is Airborne),
        (grounded && (*old(action) == Action::Idle || *old(action) == (Action::Landing { frames_left: 1 })) && old(buffer).ready(InputAction::Jump)) ==> *final(action) == (Action::Jumpsquat { frames_left: JUMPSQUAT_FRAMES, short: false }),
        // Coyote time runs down by one frame in the air, except when walking off a ledge restarts it.
        (!grounded && *old(action) != Action::Idle) ==> (final(player).coyote_frames == 0 || final(player).coyote_frames + 1 == old(player).coyote_frames),
        (!grounded && *old(action) == Action::Idle) ==> (final(player).coyote_frames == 0 || final(player).coyote_frames == COYOTE_FRAMES),
        // A jump in the air on the last frame of coyote time or later spends a midair jump.
        (!grounded && (*old(action)) is Airborne && old(player).coyote_frames <= 1 && m.vertical == Vertical::FullHop) ==> (m.air_jump is Some && final(player).jumps_left + 1 == old(player).jumps_left),
        // With coyote time left, a jump in the air keeps the midair jump.
        (!grounded && (*old(action)) is Airborne && old(player).coyote_frames >= 2 && m.vertical == Vertical::FullHop) ==> (m.air_jump is None && final(player).jumps_left == old(player).jumps_left && final(player).coyote_frames == 0),
        // In the air, a jump is taken exactly when one is buffered and left.
        (!grounded && (*old(action)) is Airborne) ==> ((m.vertical == Vertical::FullHop) <==> (old(buffer).ready(InputAction::Jump) && (old(player).jumps_left > 0 || old(player).coyote_frames >= 2))),
        // The midair push is strong only when pushing left against a rightward motion.
        (m.air_jump is Some) ==> ((m.air_jump == Some(AirJumpPush::Reverse)) <==> (held.direction == Direction::Left && moving_right)),
        // Landing lag counts down one frame at a time on the ground, whatever is buffered.
        (grounded && (*old(action)) is Landing && (*old(action))->Landing_frames_left >= 2) ==> *final(action) == (Action::Landing { frames_left: ((*old(action))->Landing_frames_left - 1) as u8 }),
        (grounded && *old(action) == (Action::Landing { frames_left: 1 }) && !old(buffer).ready(InputAction::Jump)) ==> *final(action) == Action::Idle,
        // Hitstun counts down one frame at a time in the air, whatever is buffered, then the fighter is airborne.
        (!grounded && (*old(action)) is Hitstun && (*old(action))->Hitstun_frames_left >= 2) ==> *final(action) == (Action::Hitstun { frames_left: ((*old(action))->Hitstun_frames_left - 1) as u8 }),
        (!grounded && *old(action) == (Action::Hitstun { frames_left: 1 })) ==> ((*final(action)) is Airborne),
        // States that accept no input leave the buffer alone.
        (((*old(action)) is Jumpsquat && (*final(action)) is Jumpsquat) || (((*old(action)) is Hitstun || (*old(action)) is Landing) && ((*final(action)) is Hitstun || (*final(action)) is Landing))) ==> (final(buffer).jump == old(buffer).jump && final(buffer).fast_fall == old(buffer).fast_fall),
        // Jumpsquat counts down; its last frame leaves the ground with a short hop if the jump key was let go.
        ((*old(action)) is Jumpsquat && (*old(action))->Jumpsquat_frames_left >= 2) ==> *final(action) == (Action::Jumpsquat { frames_left: ((*old(action))->Jumpsquat_frames_left - 1) as u8, short: (*old(action))->short || !held.jump }),
        ((*old(action)) is Jumpsquat && (*old(action))->Jumpsquat_frames_left == 1 && !old(buffer).ready(InputAction::Jump)) ==> ((*final(action)) is Airborne && (m.vertical == Vertical::ShortHop <==> ((*old(action))->short || !held.jump)) && (m.vertical == Vertical::FullHop <==> !((*old(action))->short || !held.jump))),
        // A grounded turnaround counts down without moving, flipping the facing with TURN_FLIP_FRAME frames left.
        ((*old(action)) is Turnaround) ==> m.drive == Drive::Still,
        (grounded && (*old(action)) is Turnaround && (*old(action))->Turnaround_frames_left >= 2 && !old(buffer).ready(InputAction::Jump)) ==> (*final(action) == (Action::Turnaround { frames_left: ((*old(action))->Turnaround_frames_left - 1) as u8 }) && (final(player).facing == old(player).facing <==> (*old(action))->Turnaround_frames_left != TURN_FLIP_FRAME + 1)),
        // Standing still, holding the facing direction walks and holding the other way starts a turnaround.
        (grounded && *old(action) == Action::Idle && !old(buffer).ready(InputAction::Jump) && old(player).facing.agrees(held.direction)) ==> (*final(action) == Action::Idle && m.drive == Drive::Walk),
        (grounded && *old(action) == Action::Idle && !old(buffer).ready(InputAction::Jump) && held.direction != Direction::Neutral && !old(player).facing.agrees(held.direction)) ==> (*final(action) == (Action::Turnaround { frames_left: TURNAROUND_FRAMES }) && m.drive == Drive::Still),
        // Aerial states drift and damp little; a fast fall sets the fast-fall speed and gravity.
        ((*old(action)) is Airborne || (*old(action)) is Hitstun) ==> m.damping == Damping::Air,
        ((*old(action)) is Airborne) ==> m.drive == Drive::Drift,
        (*old(action) == (Action::Airborne { fast_fall: true })) ==> (m.gravity == GravityScale::FastFall && (m.vertical == Vertical::FastFall || m.vertical == Vertical::FullHop)),
        (*old(action) == (Action::Airborne { fast_fall: false }) && !grounded && old(buffer).ready(InputAction::FastFall) && falling && !(old(buffer).ready(InputAction::Jump) && (old(player).jumps_left > 0 || old(player).coyote_frames >= 2))) ==> *final(action) == (Action::Airborne { fast_fall: true }),
{
    let mut vertical = Vertical::Keep;
    let mut drive = Drive::Still;
    let mut damping = Damping::Ground;
    let mut gravity = GravityScale::Normal;

    // Jump resources
    player.coyote_frames = player.coyote_frames.saturating_sub(1);
    if grounded {
        player.coyote_frames = 0;
        player.jumps_left = 1;
    }
    // Advance the current action
    match *action {
        Action::Idle => {
            if !grounded {
                *action = Action::Airborne { fast_fall: false };
                player.coyote_frames = COYOTE_FRAMES;
            }
            if held.direction != Direction::Neutral {
                if !player.facing.agrees_with(held.direction) {
                    *action = Action::Turnaround { frames_left: TURNAROUND_FRAMES };
                } else {
                    drive = Drive::Walk;
                }
            }
        },
        Action::Airborne { fast_fall } => {
            if fast_fall {
                vertical = Vertical::FastFall;
                gravity = GravityScale::FastFall;
            }
            if grounded {
                *action = Action::Landing { frames_left: LANDING_FRAMES };
            }
            drive = Drive::Drift;
            damping = Damping::Air;
        },
        Action::Jumpsquat { frames_left, short } => {
            let short = short || !held.jump;
            let left = frames_left - 1;
            *action = Action::Jumpsquat { frames_left: left, short };
            if left == 0 {
                vertical = if short {
                    Vertical::ShortHop
                } else {
                    Vertical::FullHop
                };
                *action = Action::Airborne { fast_fall: false };
            }
        },
        Action::Hitstun { frames_left } => {
            let left = frames_left - 1;
            *action = Action::Hitstun { frames_left: left };
            if left == 0 {
                *action = Action::Airborne { fast_fall: false };
            }
            if grounded {
                *action = Action::Landing { frames_left: HITSTUN_LANDING_FRAMES };
            }
            damping = Damping::Air;
        },
        Action::Landing { frames_left } => {
            let left = frames_left - 1;
            *action = Action::Landing { frames_left: left };
            if left == 0 {
                *action = Action::Idle;
            }
            if !grounded {
                *action = Action::Airborne { fast_fall: false };
            }
        },
        Action::Turnaround { frames_left } => {
            let left = frames_left - 1;
            *action = Action::Turnaround { frames_left: left };
            if !grounded {
                *action = Action::Airborne { fast_fall: false };
            } else if left == TURN_FLIP_FRAME {
                player.facing.flip();
            } else if left == 0 {
                *action = Action::Idle;
            }
        },
    }

    // Handle input
    let falling_now = match vertical {
        Vertical::Keep => falling,
        Vertical::FastFall => true,
        Vertical::ShortHop => false,
        Vertical::FullHop => false,
    };
    let mut air_jump: Option<AirJumpPush> = None;
    let allowed = action.allowed(player, falling_now);
    proof {
        crate::input::lemma_first_buffered_is_allowed(*buffer, allowed@);
        crate::input::lemma_first_buffered_short(*buffer);
    }
    if let Some(next_action) = buffer.try_consume(allowed) {
        match (*action, next_action) {
            (Action::Idle, InputAction::Jump) | (Action::Turnaround { .. }, InputAction::Jump) => {
                *action = Action::Jumpsquat { frames_left: JUMPSQUAT_FRAMES, short: false };
            },
            (Action::Airborne { .. }, InputAction::Jump) => {
                if player.coyote_frames > 0 {
                    player.coyote_frames = 0;
                } else {
                    player.jumps_left = player.jumps_left - 1;
                    air_jump = Some(
                        if held.direction == Direction::Left && moving_right {
                            AirJumpPush::Reverse
                        } else {
                            AirJumpPush::Carry
                        },
                    );
                }
                vertical = Vertical::FullHop;
                *action = Action::Airborne { fast_fall: false };
            },
            (Action::Airborne { .. }, InputAction::FastFall) => {
                *action = Action::Airborne { fast_fall: true };
            },
            _ => {
                // The action accepts no other input.
                proof {
                    assert(false);
                }
            },
        }
    }
    Motion { vertical, air_jump, drive, damping, gravity }
}

/// What one frame hands the state machine besides the action and the
/// player: the buffer, the held inputs, whether the fighter falls and
/// whether it moves right.
pub struct FrameInput {
    pub buffer: ActionBuffer,
    pub held: HeldInputs,
    pub falling: bool,
    pub moving_right: bool,
}

/// The action and player after a run of grounded frames.
pub open spec fn grounded_run(action: Action, player: Player, frames: Seq<FrameInput>) -> (Action, Player)
    decreases frames.len(),
{
    if frames.len() == 0 {
        (action, player)
    } else {
        let (a, p) = grounded_run(action, player, frames.drop_last());
        let f = frames.last();
        let (a1, p1, _) = step(a, p, f.buffer, f.held, true, f.falling, f.moving_right);
        (a1, p1)
    }
}

/// One grounded turnaround frame without a buffered jump counts down, flips
/// the facing when it reaches `TURN_FLIP_FRAME`, and ends in `Idle`.
pub proof fn lemma_turnaround_frame(n: u8, p: Player, f: FrameInput)
    requires
        1 <= n <= TURNAROUND_FRAMES,
        !f.buffer.ready(InputAction::Jump),
    ensures
        ({
            let (a1, p1, _) = step(
                Action::Turnaround { frames_left: n },
                p,
                f.buffer,
                f.held,
                true,
                f.falling,
                f.moving_right,
            );
            &&& a1 == if n == 1 {
                Action::Idle
            } else {
                Action::Turnaround { frames_left: (n - 1) as u8 }
            }
            &&& p1 == Player {
                facing: if n - 1 == TURN_FLIP_FRAME {
                    p.facing.opposite()
                } else {
                    p.facing
                },
                coyote_frames: 0,
                jumps_left: 1,
            }
        }),
{
    let p0 = p.refreshed(true);
    let (a1, p1, m1) = Action::Turnaround { frames_left: n }.advanced(p0, f.held, true);
    let accepted = a1.accepts(p1, m1.falls_after(f.falling));
    if a1 is Turnaround {
        assert(accepted == seq![InputAction::Jump]);
        assert(accepted.drop_first() =~= Seq::<InputAction>::empty());
        assert(f.buffer.first_buffered(accepted.drop_first()) is None);
    }
}

/// A grounded turnaround without buffered jumps lasts `TURNAROUND_FRAMES`
/// frames: the facing flips exactly once, on the frame where
/// `TURN_FLIP_FRAME` frames remain, and the fighter then stands idle.
pub proof fn lemma_turnaround_flips_once(p: Player, frames: Seq<FrameInput>)
    requires
        frames.len() == TURNAROUND_FRAMES,
        forall|i: int| 0 <= i < frames.len() ==> !(#[trigger] frames[i]).buffer.ready(InputAction::Jump),
    ensures
        grounded_run(Action::Turnaround { frames_left: TURNAROUND_FRAMES }, p, frames.take(5)).1.facing == p.facing,
        grounded_run(Action::Turnaround { frames_left: TURNAROUND_FRAMES }, p, frames.take(6)) == (
        Action::Turnaround { frames_left: TURN_FLIP_FRAME },
        Player { facing: p.facing.opposite(), coyote_frames: 0, jumps_left: 1 },
        ),
        grounded_run(Action::Turnaround { frames_left: TURNAROUND_FRAMES }, p, frames) == (
        Action::Idle,
        Player { facing: p.facing.opposite(), coyote_frames: 0, jumps_left: 1 },
        ),
{
    lemma_turnaround_run(p, frames, 5);
    lemma_turnaround_run(p, frames, 6);
    lemma_turnaround_run(p, frames, 11);
    assert(frames.take(11) =~= frames);
}

proof fn lemma_turnaround_run(p: Player, frames: Seq<FrameInput>, k: int)
    requires
        frames.len() == TURNAROUND_FRAMES,
        forall|i: int| 0 <= i < frames.len() ==> !(#[trigger] frames[i]).buffer.ready(InputAction::Jump),
        1 <= k <= TURNAROUND_FRAMES,
    ensures
        grounded_run(Action::Turnaround { frames_left: TURNAROUND_FRAMES }, p, frames.take(k)) == (
        if k == TURNAROUND_FRAMES {
            Action::Idle
        } else {
            Action::Turnaround { frames_left: (TURNAROUND_FRAMES - k) as u8 }
        },
        Player {
            facing: if k >= 6 {
                p.facing.opposite()
            } else {
                p.facing
            },
            coyote_frames: 0,
            jumps_left: 1,
        },
        ),
    decreases k,
{
    let t = frames.take(k);
    let start = Action::Turnaround { frames_left: TURNAROUND_FRAMES };
    assert(t.last() == frames[k - 1]);
    if k == 1 {
        assert(t.drop_last() =~= Seq::<FrameInput>::empty());
        assert(grounded_run(start, p, t.drop_last()) == (start, p));
        lemma_turnaround_frame(TURNAROUND_FRAMES, p, frames[0]);
    } else {
        assert(t.drop_last() =~= frames.take(k - 1));
        lemma_turnaround_run(p, frames, k - 1);
        let (a, q) = grounded_run(Action::Turnaround { frames_left: TURNAROUND_FRAMES }, p, frames.take(k - 1));
        lemma_turnaround_frame((TURNAROUND_FRAMES - (k - 1)) as u8, q, frames[k - 1]);
    }
}

/// Coyote time runs out: in the air, a jump taken on the last frame of coyote
/// time or later spends the midair jump and pushes.
pub proof fn lemma_late_air_jump_spends_jump(
    p: Player,
    b: ActionBuffer,
    held: HeldInputs,
    fast_fall: bool,
    falling: bool,
    moving_right: bool,
)
    requires
        p.coyote_frames <= 1,
        p.jumps_left >= 1,
        b.ready(InputAction::Jump),
    ensures
        ({
            let (a1, p1, m) = step(Action::Airborne { fast_fall }, p, b, held, false, falling, moving_right);
            &&& a1 == Action::Airborne { fast_fall: false }
            &&& p1.jumps_left + 1 == p.jumps_left
            &&& p1.coyote_frames == 0
            &&& m.air_jump is Some
            &&& m.vertical == Vertical::FullHop
        }),
{
    crate::input::lemma_first_buffered_short(b);
}

/// With coyote time still running, a jump in the air keeps the midair jump.
pub proof fn lemma_coyote_jump_keeps_jump(
    p: Player,
    b: ActionBuffer,
    held: HeldInputs,
    fast_fall: bool,
    falling: bool,
    moving_right: bool,
)
    requires
        p.coyote_frames >= 2,
        b.ready(InputAction::Jump),
    ensures
        ({
            let (a1, p1, m) = step(Action::Airborne { fast_fall }, p, b, held, false, falling, moving_right);
            &&& p1.jumps_left == p.jumps_left
            &&& p1.coyote_frames == 0
            &&& m.air_jump is None
            &&& m.vertical == Vertical::FullHop
        }),
{
    crate::input::lemma_first_buffered_short(b);
}

/// Landing lag on the ground counts down by one frame, whatever is buffered
/// or held.
pub proof fn lemma_landing_counts_down(
    n: u8,
    p: Player,
    b: ActionBuffer,
    held: HeldInputs,
    falling: bool,
    moving_right: bool,
)
    requires
        n >= 2,
    ensures
        step(Action::Landing { frames_left: n }, p, b, held, true, falling, moving_right).0
            == (Action::Landing { frames_left: (n - 1) as u8 }),
{
    crate::input::lemma_first_buffered_short(b);
}

/// Hitstun accepts no input, and in the air it counts down by one frame,
/// whatever is buffered or held.
pub proof fn lemma_hitstun_counts_down(
    n: u8,
    p: Player,
    b: ActionBuffer,
    held: HeldInputs,
    falling: bool,
    moving_right: bool,
)
    requires
        n >= 2,
    ensures
        (Action::Hitstun { frames_left: n }).accepts(p, falling).len() == 0,
        step(Action::Hitstun { frames_left: n }, p, b, held, false, falling, moving_right).0
            == (Action::Hitstun { frames_left: (n - 1) as u8 }),
{
    crate::input::lemma_first_buffered_short(b);
}

/// A turnaround stands still on every frame.
pub proof fn lemma_turnaround_stands_still(
    n: u8,
    p: Player,
    b: ActionBuffer,
    held: HeldInputs,
    grounded: bool,
    falling: bool,
    moving_right: bool,
)
    requires
        n >= 1,
    ensures
        ({
            let (_, _, m) = step(Action::Turnaround { frames_left: n }, p, b, held, grounded, falling, moving_right);
            m.drive == Drive::Still
        }),
{
    crate::input::lemma_first_buffered_short(b);
}

impl Action {
    /// Hitstun of a launch whose knockback lasts `frames` frames, capped at
    /// the longest hitstun.
    pub fn hitstun_for(frames: u32) -> (a: Action)
        ensures
            a == (Action::Hitstun {
                frames_left: if frames > MAX_HITSTUN_FRAMES as u32 { MAX_HITSTUN_FRAMES } else { frames as u8 },
            }),
    {
        let frames_left: u8 = if frames > MAX_HITSTUN_FRAMES as u32 {
            MAX_HITSTUN_FRAMES
        } else {
            frames as u8
        };
        Action::Hitstun { frames_left }
    }
}

/// The launch direction in degrees: `angle` as given, or mirrored about the
/// vertical axis when `flip` is set. Angles of a full turn or more, and
/// mirrored angles past the horizontal, are not handled.
pub fn launch_angle(angle: u16, flip: bool) -> (r: u16)
    requires
        angle < 360,
        flip ==> angle <= 180,
    ensures
        r == if flip { 180 - angle } else { angle as int },
{
    if flip {
        180 - angle
    } else {
        angle
    }
}

} // verus!
