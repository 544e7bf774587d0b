//! Input buffering: each action remembers how long it has been pressed or
//! released, and an action counts as "buffered" while it is pressed or was
//! released at most `BUFFER_TIME` frames ago.

use vstd::prelude::*;

verus! {

/// How many frames after its release an input stays buffered.
pub const BUFFER_TIME: u8 = 10;

/// Frame count that stands for "just now".
pub const JUST_FRAMES: u8 = 0;

/// Frame count that stands for "long ago": the counter saturates here.
pub const EVER_FRAMES: u8 = 255;

/// The actions a player can buffer.
#[derive(Clone, Copy, Debug, PartialEq, Eq, Structural)]
pub enum InputAction {
    Jump,
    FastFall,
}

/// A saturating frame counter.
#[derive(Clone, Copy, Debug, PartialEq, Eq, Structural)]
pub struct ActionTime(pub u8);

impl ActionTime {
    /// The counter after one more frame: one more, up to 255.
    pub open spec fn next(self) -> ActionTime {
        if self.0 == EVER_FRAMES {
            self
        } else {
            ActionTime((self.0 + 1) as u8)
        }
    }

    /// A counter that starts now.
    pub fn just() -> (t: ActionTime)
        ensures
            t.0 == JUST_FRAMES,
    {
        ActionTime(JUST_FRAMES)
    }

    /// A counter that stands for "never" (saturated).
    pub fn ever() -> (t: ActionTime)
        ensures
            t.0 == EVER_FRAMES,
    {
        ActionTime(EVER_FRAMES)
    }

    /// Advances the counter by one frame, saturating at 255.
    pub fn tick(&mut self)
        ensures
            *final(self) == old(self).next(),
    {
        self.0 = self.0.saturating_add(1);
    }
}

/// Whether an action is held or released, and for how many frames.
#[derive(Clone, Copy, Debug, PartialEq, Eq, Structural)]
pub enum ActionStateInner {
    PressedFor(ActionTime),
    ReleasedFor(ActionTime),
}

impl Default for ActionStateInner {
    fn default() -> (s: Self)
        ensures
            s == ActionStateInner::ReleasedFor(ActionTime(EVER_FRAMES)),
    {
        Self::ReleasedFor(ActionTime::ever())
    }
}

impl ActionStateInner {
    /// The state "released long ago": nothing is buffered.
    pub open spec fn idle() -> ActionStateInner {
        ActionStateInner::ReleasedFor(ActionTime(EVER_FRAMES))
    }

    /// One frame of a tap action: a press lasts a single frame, then counts
    /// as just released.
    pub open spec fn tapped(self) -> ActionStateInner {
        match self {
            ActionStateInner::PressedFor(_) => ActionStateInner::ReleasedFor(ActionTime(JUST_FRAMES)),
            ActionStateInner::ReleasedFor(t) => ActionStateInner::ReleasedFor(t.next()),
        }
    }

    /// One frame of a held action: the current phase just gets older.
    pub open spec fn held(self) -> ActionStateInner {
        match self {
            ActionStateInner::PressedFor(t) => ActionStateInner::PressedFor(t.next()),
            ActionStateInner::ReleasedFor(t) => ActionStateInner::ReleasedFor(t.next()),
        }
    }

    /// The state after the key goes down.
    pub open spec fn pressed(self) -> ActionStateInner {
        match self {
            ActionStateInner::PressedFor(_) => self,
            ActionStateInner::ReleasedFor(_) => ActionStateInner::PressedFor(ActionTime(JUST_FRAMES)),
        }
    }

    /// The state after the key goes up.
    pub open spec fn released(self) -> ActionStateInner {
        match self {
            ActionStateInner::PressedFor(_) => ActionStateInner::ReleasedFor(ActionTime(JUST_FRAMES)),
            ActionStateInner::ReleasedFor(_) => self,
        }
    }

    /// Buffered: pressed, or released at most `BUFFER_TIME` frames ago.
    pub open spec fn buffered(self) -> bool {
        match self {
            ActionStateInner::PressedFor(_) => true,
            ActionStateInner::ReleasedFor(t) => t.0 <= BUFFER_TIME,
        }
    }

    /// The state right after a press.
    pub fn just_pressed() -> (s: ActionStateInner)
        ensures
            s == ActionStateInner::PressedFor(ActionTime(JUST_FRAMES)),
    {
        Self::PressedFor(ActionTime::just())
    }

    /// The state right after a release.
    pub fn just_released() -> (s: ActionStateInner)
        ensures
            s == ActionStateInner::ReleasedFor(ActionTime(JUST_FRAMES)),
    {
        Self::ReleasedFor(ActionTime::just())
    }

    /// Advances a tap action by one frame.
    pub fn tick_tap(&mut self)
        ensures
            *final(self) == old(self).tapped(),
            (*final(self)) is ReleasedFor,
            (*old(self)) is PressedFor ==> *final(self) == ActionStateInner::ReleasedFor(ActionTime(JUST_FRAMES)),
    {
        match self {
            Self::PressedFor(_) => *self = Self::just_released(),
            Self::ReleasedFor(x) => x.tick(),
        }
    }

    /// Advances a held action by one frame.
    pub fn tick_held(&mut self)
        ensures
            *final(self) == old(self).held(),
            ((*final(self)) is PressedFor) == ((*old(self)) is PressedFor),
    {
        match self {
            Self::PressedFor(x) => x.tick(),
            Self::ReleasedFor(x) => x.tick(),
        }
    }

    /// Whether the action is currently buffered.
    pub fn in_window(&self) -> (b: bool)
        ensures
            b == self.buffered(),
    {
        match self {
            Self::PressedFor(_) => true,
            Self::ReleasedFor(x) => x.0 <= BUFFER_TIME,
        }
    }

    /// Records that the key went down.
    pub fn press(&mut self)
        ensures
            *final(self) == old(self).pressed(),
            (*final(self)) is PressedFor,
            (*old(self)) is PressedFor ==> *final(self) == *old(self),
    {
        match self {
            Self::PressedFor(_) => {},
            Self::ReleasedFor(_) => *self = Self::just_pressed(),
        }
    }

    /// Records that the key went up.
    pub fn release(&mut self)
        ensures
            *final(self) == old(self).released(),
            (*final(self)) is ReleasedFor,
            (*old(self)) is ReleasedFor ==> *final(self) == *old(self),
    {
        match self {
            Self::PressedFor(_) => *self = Self::just_released(),
            Self::ReleasedFor(_) => {},
        }
    }

    /// Applies one frame of key edges: a press first, then a release.
    pub fn record(&mut self, just_pressed: bool, just_released: bool)
        ensures
            *final(self) == ({
                let p = if just_pressed { old(self).pressed() } else { *old(self) };
                if just_released { p.released() } else { p }
            }),
    {
        if just_pressed {
            self.press();
        }
        if just_released {
            self.release();
        }
    }

    pub fn is_pressed(&self) -> (b: bool)
        ensures
            b == (*self is PressedFor),
    {
        matches!(self, Self::PressedFor(_))
    }

    pub fn is_released(&self) -> (b: bool)
        ensures
            b == (*self is ReleasedFor),
    {
        matches!(self, Self::ReleasedFor(_))
    }
}

/// An action's state; `HELD` says whether the action lasts while the key is
/// held (`true`) or only on the frame it is pressed (`false`).
#[derive(Clone, Copy, Debug)]
pub struct ActionState<const HELD: bool>(pub ActionStateInner);

impl<const HELD: bool> Default for ActionState<HELD> {
    fn default() -> (s: Self)
        ensures
            s.0 == ActionStateInner::idle(),
    {
        ActionState(ActionStateInner::ReleasedFor(ActionTime::ever()))
    }
}

impl<const HELD: bool> ActionState<HELD> {
    /// The state after one frame, by the kind of action.
    pub open spec fn next(self) -> ActionState<HELD> {
        if HELD {
            ActionState(self.0.held())
        } else {
            ActionState(self.0.tapped())
        }
    }

    pub fn just_pressed() -> (s: Self)
        ensures
            s.0 == ActionStateInner::PressedFor(ActionTime(JUST_FRAMES)),
    {
        ActionState(ActionStateInner::just_pressed())
    }

    pub fn just_released() -> (s: Self)
        ensures
            s.0 == ActionStateInner::ReleasedFor(ActionTime(JUST_FRAMES)),
    {
        ActionState(ActionStateInner::just_released())
    }

    /// Advances the action by one frame.
    pub fn tick(&mut self)
        ensures
            *final(self) == old(self).next(),
    {
        if HELD {
            self.0.tick_held();
        } else {
            self.0.tick_tap();
        }
    }
}


/// The buffered state of every action of one player.
#[derive(Clone, Copy, Debug)]
pub struct ActionBuffer {
    pub jump: ActionState<true>,
    pub fast_fall: ActionState<false>,
}

impl Default for ActionBuffer {
    fn default() -> (b: Self)
        ensures
            b.is_clear(),
    {
        ActionBuffer { jump: ActionState::default(), fast_fall: ActionState::default() }
    }
}

impl ActionBuffer {
    /// The state of one action.
    pub open spec fn state(self, action: InputAction) -> ActionStateInner {
        match action {
            InputAction::Jump => self.jump.0,
            InputAction::FastFall => self.fast_fall.0,
        }
    }

    /// Whether an action is buffered.
    pub open spec fn ready(self, action: InputAction) -> bool {
        self.state(action).buffered()
    }

    /// Every action released long ago.
    pub open spec fn is_clear(self) -> bool {
        &&& self.jump.0 == ActionStateInner::idle()
        &&& self.fast_fall.0 == ActionStateInner::idle()
    }

    /// The first buffered action of `allowed`, if any.
    pub open spec fn first_buffered(self, allowed: Seq<InputAction>) -> Option<InputAction>
        decreases allowed.len(),
    {
        if allowed.len() == 0 {
            None
        } else if self.ready(allowed[0]) {
            Some(allowed[0])
        } else {
            self.first_buffered(allowed.drop_first())
        }
    }

    /// Advances every action by one frame.
    pub fn tick(&mut self)
        ensures
            final(self).jump == old(self).jump.next(),
            final(self).fast_fall == old(self).fast_fall.next(),
            (final(self).jump.0 is PressedFor) == (old(self).jump.0 is PressedFor),
            final(self).fast_fall.0 is ReleasedFor,
    {
        self.jump.tick();
        self.fast_fall.tick();
    }

    /// The state of one action.
    pub fn state_of(&self, action: InputAction) -> (s: ActionStateInner)
        ensures
            s == self.state(action),
    {
        match action {
            InputAction::Jump => self.jump.0,
            InputAction::FastFall => self.fast_fall.0,
        }
    }

    /// Consumes the first action of `allowed` that is buffered: it is
    /// returned and the whole buffer is cleared. When none is buffered,
    /// nothing changes and `None` comes back.
    pub fn try_consume(&mut self, allowed: &[InputAction]) -> (r: Option<InputAction>)
        ensures
            r == old(self).first_buffered(allowed@),
            r is Some ==> final(self).is_clear(),
            r is None ==> final(self).jump == old(self).jump && final(self).fast_fall
                == old(self).fast_fall,
    {
        let mut idx: usize = 0;
        assert(allowed@.skip(0) =~= allowed@);
        while idx < allowed.len()
            invariant
                0 <= idx <= allowed@.len(),
                *self == *old(self),
                old(self).first_buffered(allowed@) == old(self).first_buffered(
                    allowed@.skip(idx as int),
                ),
            decreases allowed@.len() - idx,
        {
            let action = allowed[idx];
            assert(allowed@.skip(idx as int)[0] == action);
            if self.state_of(action).in_window() {
                self.clear();
                return Some(action);
            }
            assert(allowed@.skip(idx as int).drop_first() =~= allowed@.skip(idx + 1));
            idx = idx + 1;
        }
        None
    }

    /// Forgets every buffered action.
    pub fn clear(&mut self)
        ensures
            final(self).is_clear(),
    {
        self.jump.0 = ActionStateInner::ReleasedFor(ActionTime::ever());
        self.fast_fall.0 = ActionStateInner::ReleasedFor(ActionTime::ever());
    }

    /// Applies one frame of key edges to both actions.
    pub fn record_keys(
        &mut self,
        jump_pressed: bool,
        jump_released: bool,
        fast_fall_pressed: bool,
        fast_fall_released: bool,
    )
        ensures
            final(self).jump.0 == ({
                let p = if jump_pressed { old(self).jump.0.pressed() } else { old(self).jump.0 };
                if jump_released { p.released() } else { p }
            }),
            final(self).fast_fall.0 == ({
                let p = if fast_fall_pressed { old(self).fast_fall.0.pressed() } else { old(self).fast_fall.0 };
                if fast_fall_released { p.released() } else { p }
            }),
    {
        self.jump.0.record(jump_pressed, jump_released);
        self.fast_fall.0.record(fast_fall_pressed, fast_fall_released);
    }
}

/// The horizontal direction the player holds.
#[derive(Clone, Copy, Debug, PartialEq, Eq, Structural)]
pub enum Direction {
    Left,
    Neutral,
    Right,
}

/// What the player holds down this frame.
#[derive(Clone, Copy, Debug, PartialEq, Eq, Structural)]
pub struct HeldInputs {
    pub direction: Direction,
    pub jump: bool,
}

impl Default for HeldInputs {
    fn default() -> (h: Self)
        ensures
            h.direction == Direction::Neutral,
            !h.jump,
    {
        HeldInputs { direction: Direction::Neutral, jump: false }
    }
}

impl HeldInputs {
    /// Reads the held keys: left alone gives `Left`, right alone gives
    /// `Right`, neither or both give `Neutral`.
    pub fn from_keys(left: bool, right: bool, jump: bool) -> (h: HeldInputs)
        ensures
            h.direction == (if left && !right {
                Direction::Left
            } else if right && !left {
                Direction::Right
            } else {
                Direction::Neutral
            }),
            h.jump == jump,
    {
        let direction = if left && !right {
            Direction::Left
        } else if right && !left {
            Direction::Right
        } else {
            Direction::Neutral
        };
        HeldInputs { direction, jump }
    }
}


/// The state of a tap action after `n` frames.
pub open spec fn tap_ticks(s: ActionStateInner, n: nat) -> ActionStateInner
    decreases n,
{
    if n == 0 {
        s
    } else {
        tap_ticks(s, (n - 1) as nat).tapped()
    }
}

/// The state of a held action after `n` frames.
pub open spec fn held_ticks(s: ActionStateInner, n: nat) -> ActionStateInner
    decreases n,
{
    if n == 0 {
        s
    } else {
        held_ticks(s, (n - 1) as nat).held()
    }
}

/// A released action only ages, whichever kind it is: after `n` frames it
/// has been released for `t + n` frames, saturating at 255.
pub proof fn lemma_released_ages(t: u8, n: nat)
    ensures
        tap_ticks(ActionStateInner::ReleasedFor(ActionTime(t)), n) == ActionStateInner::ReleasedFor(
            ActionTime(if t + n >= EVER_FRAMES { EVER_FRAMES } else { (t + n) as u8 }),
        ),
        held_ticks(ActionStateInner::ReleasedFor(ActionTime(t)), n) == ActionStateInner::ReleasedFor(
            ActionTime(if t + n >= EVER_FRAMES { EVER_FRAMES } else { (t + n) as u8 }),
        ),
    decreases n,
{
    if n > 0 {
        lemma_released_ages(t, (n - 1) as nat);
    }
}

/// A frame counter never goes back: it grows by one until it saturates.
pub proof fn lemma_time_monotonic(t: ActionTime)
    ensures
        t.next().0 >= t.0,
        t.next().0 == t.0 <==> t.0 == EVER_FRAMES,
{
}

/// A tap action pressed (from any state) stays buffered for the frame of the
/// press and `BUFFER_TIME + 1` further frames, and no longer.
pub proof fn lemma_tap_buffer_window(s: ActionStateInner, n: nat)
    ensures
        tap_ticks(s.pressed(), n).buffered() <==> n <= BUFFER_TIME + 1,
{
    if n > 0 {
        let p = s.pressed();
        assert(tap_ticks(p, 0) == p);
        assert(tap_ticks(p, 1) == ActionStateInner::ReleasedFor(ActionTime(JUST_FRAMES)));
        lemma_tap_after_first(p, (n - 1) as nat);
        lemma_released_ages(JUST_FRAMES, (n - 1) as nat);
    }
}

proof fn lemma_tap_after_first(p: ActionStateInner, m: nat)
    ensures
        tap_ticks(p, m + 1) == tap_ticks(tap_ticks(p, 1), m),
    decreases m,
{
    if m > 0 {
        lemma_tap_after_first(p, (m - 1) as nat);
    }
}

/// A held action stays buffered for as long as it is held.
pub proof fn lemma_held_stays_buffered(s: ActionStateInner, n: nat)
    ensures
        held_ticks(s.pressed(), n) is PressedFor,
        held_ticks(s.pressed(), n).buffered(),
    decreases n,
{
    if n > 0 {
        lemma_held_stays_buffered(s, (n - 1) as nat);
    }
}

/// Once a held action is released, it stays buffered for the frame of the
/// release and `BUFFER_TIME` further frames, and no longer.
pub proof fn lemma_held_release_window(s: ActionStateInner, n: nat)
    requires
        s is PressedFor,
    ensures
        held_ticks(s.released(), n).buffered() <==> n <= BUFFER_TIME,
{
    lemma_released_ages(JUST_FRAMES, n);
}

/// After an action has been consumed, nothing is buffered: the same input
/// can never be consumed twice, whatever is allowed next.
pub proof fn lemma_cleared_has_nothing_ready(b: ActionBuffer, allowed: Seq<InputAction>)
    requires
        b.is_clear(),
    ensures
        b.first_buffered(allowed) is None,
    decreases allowed.len(),
{
    if allowed.len() > 0 {
        match allowed[0] {
            InputAction::Jump => {},
            InputAction::FastFall => {},
        }
        lemma_cleared_has_nothing_ready(b, allowed.drop_first());
    }
}


/// Whatever is consumed is one of the allowed actions, and it is buffered.
pub proof fn lemma_first_buffered_is_allowed(b: ActionBuffer, allowed: Seq<InputAction>)
    ensures
        b.first_buffered(allowed) matches Some(a) ==> allowed.contains(a) && b.ready(a),
    decreases allowed.len(),
{
    if allowed.len() > 0 && !b.ready(allowed[0]) {
        lemma_first_buffered_is_allowed(b, allowed.drop_first());
        if let Some(a) = b.first_buffered(allowed) {
            let i = choose|i: int| 0 <= i < allowed.drop_first().len() && allowed.drop_first()[i] == a;
            assert(allowed[i + 1] == a);
        }
    } else if allowed.len() > 0 {
        assert(allowed[0] == allowed[0]);
    }
}

/// The first buffered action of the lists that actions accept.
pub proof fn lemma_first_buffered_short(b: ActionBuffer)
    ensures
        b.first_buffered(seq![]) is None,
        b.first_buffered(seq![InputAction::Jump]) == if b.ready(InputAction::Jump) {
            Some(InputAction::Jump)
        } else {
            None
        },
        b.first_buffered(seq![InputAction::FastFall]) == if b.ready(InputAction::FastFall) {
            Some(InputAction::FastFall)
        } else {
            None
        },
        b.first_buffered(seq![InputAction::Jump, InputAction::FastFall]) == if b.ready(
            InputAction::Jump,
        ) {
            Some(InputAction::Jump)
        } else if b.ready(InputAction::FastFall) {
            Some(InputAction::FastFall)
        } else {
            None
        },
{
    assert(seq![InputAction::Jump].drop_first() =~= Seq::<InputAction>::empty());
    assert(seq![InputAction::FastFall].drop_first() =~= Seq::<InputAction>::empty());
    assert(seq![InputAction::Jump, InputAction::FastFall].drop_first() =~= seq![InputAction::FastFall]);
    assert(b.first_buffered(Seq::<InputAction>::empty()) is None);
}

} // verus!
