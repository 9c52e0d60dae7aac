use vstd::prelude::*;

verus! {

/// Cells per tick the cursor moves sideways while an arrow key is held.
pub const HORIZONTAL_STEP: i16 = 2;

/// Cells per tick the cursor moves up or down while an arrow key is held.
pub const VERTICAL_STEP: i16 = 1;

/// Factor by which a key held long enough speeds the cursor up.
pub const BOOST_MULTIPLIER: i16 = 2;

/// Nanoseconds in a millisecond; times are nanoseconds on the caller's clock.
pub const MILLISECOND: u64 = 1_000_000;

/// Without key-release events, a key counts as held this long after it was
/// last reported.
pub const INPUT_HOLD_WINDOW: u64 = 220 * MILLISECOND;

/// A key held this long moves the cursor at boosted speed.
pub const SPEED_BOOST_DELAY: u64 = 180 * MILLISECOND;

/// Time from `earlier` to `now`, or zero when `earlier` is later.
pub open spec fn spec_elapsed(now: u64, earlier: u64) -> u64 {
    if now >= earlier { (now - earlier) as u64 } else { 0 }
}

/// Time from `earlier` to `now`, or zero when `earlier` is later.
pub fn elapsed(now: u64, earlier: u64) -> (r: u64)
    ensures
        r == spec_elapsed(now, earlier),
{
    now.saturating_sub(earlier)
}

/// One arrow key: when its current hold began and when it was last reported.
#[derive(Clone, Copy, Debug, PartialEq, Eq, Structural)]
pub struct DirectionState {
    pub held_since: Option<u64>,
    pub last_seen: Option<u64>,
}

/// Arrow keys as tracked when the terminal reports releases.
#[derive(Clone, Copy, Debug, PartialEq, Eq, Structural)]
pub struct HeldDirections {
    pub up: DirectionState,
    pub down: DirectionState,
    pub left: DirectionState,
    pub right: DirectionState,
}

/// Arrow keys as tracked when the terminal reports only presses and repeats.
#[derive(Clone, Copy, Debug, PartialEq, Eq, Structural)]
pub struct DirectionalInput {
    pub up: DirectionState,
    pub down: DirectionState,
    pub left: DirectionState,
    pub right: DirectionState,
}

/// How arrow keys are read: from press/release events when the terminal
/// supports them, otherwise from presses and repeats with a hold window.
#[derive(Clone, Copy, Debug, PartialEq, Eq, Structural)]
pub enum InputMode {
    Enhanced(HeldDirections),
    Fallback(DirectionalInput),
}

/// An arrow key.
#[derive(Clone, Copy, Debug, PartialEq, Eq, Structural)]
pub enum Direction {
    Up,
    Down,
    Left,
    Right,
}

/// A key that is not held.
pub open spec fn idle() -> DirectionState {
    DirectionState { held_since: None, last_seen: None }
}

/// The key after a press or repeat at `now`: a hold that already began
/// keeps its start.
pub open spec fn spec_press(d: DirectionState, now: u64) -> DirectionState {
    DirectionState {
        held_since: if d.held_since is None { Some(now) } else { d.held_since },
        last_seen: Some(now),
    }
}

/// Fresh key tracking with no key held.
pub open spec fn initial_mode(enhanced_input: bool) -> InputMode {
    if enhanced_input {
        InputMode::Enhanced(HeldDirections { up: idle(), down: idle(), left: idle(), right: idle() })
    } else {
        InputMode::Fallback(DirectionalInput { up: idle(), down: idle(), left: idle(), right: idle() })
    }
}

/// The key counts as held at `now`.
pub open spec fn spec_is_active(d: DirectionState, now: u64, enhanced: bool) -> bool {
    if enhanced {
        d.held_since is Some
    } else {
        match d.last_seen {
            Some(t) => spec_elapsed(now, t) <= INPUT_HOLD_WINDOW,
            None => false,
        }
    }
}

/// The key counts as held at `now` and has been held long enough to boost.
pub open spec fn spec_boosted(d: DirectionState, now: u64, enhanced: bool) -> bool {
    spec_is_active(d, now, enhanced) && match d.held_since {
        Some(t) => spec_elapsed(now, t) >= SPEED_BOOST_DELAY,
        None => false,
    }
}

/// Speed along one axis from its two opposing keys: none when both or
/// neither are held, otherwise `base_step` (doubled when boosted) toward the
/// held key.
pub open spec fn spec_velocity(
    negative: DirectionState,
    positive: DirectionState,
    now: u64,
    enhanced: bool,
    base_step: i16,
) -> int {
    let n = spec_is_active(negative, now, enhanced);
    let p = spec_is_active(positive, now, enhanced);
    if n == p {
        0
    } else {
        let state = if p { positive } else { negative };
        let step = if spec_boosted(state, now, enhanced) {
            base_step * BOOST_MULTIPLIER
        } else {
            base_step as int
        };
        if p { step } else { -step }
    }
}

/// The speed along one axis can be computed in signed 16-bit arithmetic: a
/// boosted step doubles without overflow, and a step toward the negative key
/// can be negated.
pub open spec fn velocity_fits(
    negative: DirectionState,
    positive: DirectionState,
    now: u64,
    enhanced: bool,
    base_step: i16,
) -> bool {
    let n = spec_is_active(negative, now, enhanced);
    let p = spec_is_active(positive, now, enhanced);
    let state = if p { positive } else { negative };
    let step = if spec_boosted(state, now, enhanced) { base_step * BOOST_MULTIPLIER } else { base_step as int };
    n == p || (i16::MIN <= step <= i16::MAX && (p || step != i16::MIN))
}

/// The key state of `d` in `mode`.
pub open spec fn key_of(mode: InputMode, d: Direction) -> DirectionState {
    match mode {
        InputMode::Enhanced(h) => match d {
            Direction::Up => h.up,
            Direction::Down => h.down,
            Direction::Left => h.left,
            Direction::Right => h.right,
        },
        InputMode::Fallback(h) => match d {
            Direction::Up => h.up,
            Direction::Down => h.down,
            Direction::Left => h.left,
            Direction::Right => h.right,
        },
    }
}

/// Whether `mode` reads release events.
pub open spec fn is_enhanced(mode: InputMode) -> bool {
    mode is Enhanced
}

/// `mode` with the key `d` replaced by `s`, everything else unchanged.
pub open spec fn with_key(mode: InputMode, d: Direction, s: DirectionState) -> InputMode {
    match mode {
        InputMode::Enhanced(h) => InputMode::Enhanced(
            match d {
                Direction::Up => HeldDirections { up: s, ..h },
                Direction::Down => HeldDirections { down: s, ..h },
                Direction::Left => HeldDirections { left: s, ..h },
                Direction::Right => HeldDirections { right: s, ..h },
            },
        ),
        InputMode::Fallback(h) => InputMode::Fallback(
            match d {
                Direction::Up => DirectionalInput { up: s, ..h },
                Direction::Down => DirectionalInput { down: s, ..h },
                Direction::Left => DirectionalInput { left: s, ..h },
                Direction::Right => DirectionalInput { right: s, ..h },
            },
        ),
    }
}

/// The cursor's velocity `(dx, dy)` from the keys of `mode` at `now`.
pub open spec fn spec_axis(mode: InputMode, now: u64) -> (int, int) {
    let e = is_enhanced(mode);
    (
        spec_velocity(
            key_of(mode, Direction::Left),
            key_of(mode, Direction::Right),
            now,
            e,
            HORIZONTAL_STEP,
        ),
        spec_velocity(key_of(mode, Direction::Up), key_of(mode, Direction::Down), now, e, VERTICAL_STEP),
    )
}

impl DirectionState {
    /// A key that is not held.
    pub fn idle() -> (r: DirectionState)
        ensures
            r == idle(),
    {
        DirectionState { held_since: None, last_seen: None }
    }

    /// Records a press or repeat of the key at `now`.
    pub fn press(&mut self, now: u64)
        ensures
            *final(self) == spec_press(*old(self), now),
    {
        if self.held_since.is_none() {
            self.held_since = Some(now);
        }
        self.last_seen = Some(now);
    }

    /// Records that the key was let go.
    pub fn release(&mut self)
        ensures
            *final(self) == idle(),
    {
        self.held_since = None;
        self.last_seen = None;
    }

    /// Whether the key counts as held at `now`: with release events, from its
    /// press until its release; without them, for a short window after it
    /// was last reported.
    pub fn is_active(&self, now: u64, enhanced: bool) -> (r: bool)
        ensures
            r == spec_is_active(*self, now, enhanced),
    {
        if enhanced {
            self.held_since.is_some()
        } else {
            match self.last_seen {
                Some(instant) => elapsed(now, instant) <= INPUT_HOLD_WINDOW,
                None => false,
            }
        }
    }

    /// Whether the key counts as held at `now` and its hold began long enough
    /// ago to move at boosted speed.
    pub fn boosted(&self, now: u64, enhanced: bool) -> (r: bool)
        ensures
            r == spec_boosted(*self, now, enhanced),
    {
        self.is_active(now, enhanced) && match self.held_since {
            Some(instant) => elapsed(now, instant) >= SPEED_BOOST_DELAY,
            None => false,
        }
    }
}

impl HeldDirections {
    /// No key held.
    pub fn idle() -> (r: HeldDirections)
        ensures
            r == (HeldDirections { up: idle(), down: idle(), left: idle(), right: idle() }),
    {
        HeldDirections {
            up: DirectionState::idle(),
            down: DirectionState::idle(),
            left: DirectionState::idle(),
            right: DirectionState::idle(),
        }
    }
}

impl DirectionalInput {
    /// No key held.
    pub fn idle() -> (r: DirectionalInput)
        ensures
            r == (DirectionalInput { up: idle(), down: idle(), left: idle(), right: idle() }),
    {
        DirectionalInput {
            up: DirectionState::idle(),
            down: DirectionState::idle(),
            left: DirectionState::idle(),
            right: DirectionState::idle(),
        }
    }
}

/// Speed along one axis from its two opposing keys at `now`.
pub fn directional_velocity(
    negative: DirectionState,
    positive: DirectionState,
    now: u64,
    enhanced: bool,
    base_step: i16,
) -> (r: i16)
    requires
        velocity_fits(negative, positive, now, enhanced, base_step),
    ensures
        r == spec_velocity(negative, positive, now, enhanced, base_step),
{
    let negative_active = negative.is_active(now, enhanced);
    let positive_active = positive.is_active(now, enhanced);

    if negative_active == positive_active {
        return 0;
    }

    let state = if positive_active { positive } else { negative };
    let step = if state.boosted(now, enhanced) { base_step * BOOST_MULTIPLIER } else { base_step };

    if positive_active { step } else { -step }
}

/// Sideways speed from the left and right keys.
pub fn horizontal_velocity(left: DirectionState, right: DirectionState, now: u64, enhanced: bool) -> (r: i16)
    ensures
        r == spec_velocity(left, right, now, enhanced, HORIZONTAL_STEP),
{
    directional_velocity(left, right, now, enhanced, HORIZONTAL_STEP)
}

/// Vertical speed from the up and down keys.
pub fn vertical_velocity(up: DirectionState, down: DirectionState, now: u64, enhanced: bool) -> (r: i16)
    ensures
        r == spec_velocity(up, down, now, enhanced, VERTICAL_STEP),
{
    directional_velocity(up, down, now, enhanced, VERTICAL_STEP)
}

impl InputMode {
    /// Fresh key tracking: event-based when the terminal reports releases.
    pub fn new(enhanced_input: bool) -> (r: InputMode)
        ensures
            r == initial_mode(enhanced_input),
    {
        if enhanced_input {
            InputMode::Enhanced(HeldDirections::idle())
        } else {
            InputMode::Fallback(DirectionalInput::idle())
        }
    }

    /// Records a press or repeat of the key `d` at `now`.
    pub fn press(&mut self, d: Direction, now: u64)
        ensures
            *final(self) == with_key(*old(self), d, spec_press(key_of(*old(self), d), now)),
    {
        match self {
            InputMode::Enhanced(held) => match d {
                Direction::Up => held.up.press(now),
                Direction::Down => held.down.press(now),
                Direction::Left => held.left.press(now),
                Direction::Right => held.right.press(now),
            },
            InputMode::Fallback(input) => match d {
                Direction::Up => input.up.press(now),
                Direction::Down => input.down.press(now),
                Direction::Left => input.left.press(now),
                Direction::Right => input.right.press(now),
            },
        }
    }

    /// Records that the key `d` was let go.
    pub fn release(&mut self, d: Direction)
        ensures
            *final(self) == with_key(*old(self), d, idle()),
    {
        match self {
            InputMode::Enhanced(held) => match d {
                Direction::Up => held.up.release(),
                Direction::Down => held.down.release(),
                Direction::Left => held.left.release(),
                Direction::Right => held.right.release(),
            },
            InputMode::Fallback(input) => match d {
                Direction::Up => input.up.release(),
                Direction::Down => input.down.release(),
                Direction::Left => input.left.release(),
                Direction::Right => input.right.release(),
            },
        }
    }

    /// Records a press or repeat of the up key.
    pub fn press_up(&mut self, now: u64)
        ensures
            *final(self) == with_key(*old(self), Direction::Up, spec_press(key_of(*old(self), Direction::Up), now)),
    {
        self.press(Direction::Up, now)
    }

    /// Records a press or repeat of the down key.
    pub fn press_down(&mut self, now: u64)
        ensures
            *final(self) == with_key(*old(self), Direction::Down, spec_press(key_of(*old(self), Direction::Down), now)),
    {
        self.press(Direction::Down, now)
    }

    /// Records a press or repeat of the left key.
    pub fn press_left(&mut self, now: u64)
        ensures
            *final(self) == with_key(*old(self), Direction::Left, spec_press(key_of(*old(self), Direction::Left), now)),
    {
        self.press(Direction::Left, now)
    }

    /// Records a press or repeat of the right key.
    pub fn press_right(&mut self, now: u64)
        ensures
            *final(self) == with_key(*old(self), Direction::Right, spec_press(key_of(*old(self), Direction::Right), now)),
    {
        self.press(Direction::Right, now)
    }

    /// Records that the up key was let go.
    pub fn release_up(&mut self)
        ensures
            *final(self) == with_key(*old(self), Direction::Up, idle()),
    {
        self.release(Direction::Up)
    }

    /// Records that the down key was let go.
    pub fn release_down(&mut self)
        ensures
            *final(self) == with_key(*old(self), Direction::Down, idle()),
    {
        self.release(Direction::Down)
    }

    /// Records that the left key was let go.
    pub fn release_left(&mut self)
        ensures
            *final(self) == with_key(*old(self), Direction::Left, idle()),
    {
        self.release(Direction::Left)
    }

    /// Records that the right key was let go.
    pub fn release_right(&mut self)
        ensures
            *final(self) == with_key(*old(self), Direction::Right, idle()),
    {
        self.release(Direction::Right)
    }

    /// The cursor's velocity `(dx, dy)` at `now` from the held arrow keys.
    pub fn axis(&self, now: u64) -> (r: (i16, i16))
        ensures
            r.0 == spec_axis(*self, now).0,
            r.1 == spec_axis(*self, now).1,
    {
        match self {
            InputMode::Enhanced(held) => (
                horizontal_velocity(held.left, held.right, now, true),
                vertical_velocity(held.up, held.down, now, true),
            ),
            InputMode::Fallback(input) => (
                horizontal_velocity(input.left, input.right, now, false),
                vertical_velocity(input.up, input.down, now, false),
            ),
        }
    }
}

} // verus!
