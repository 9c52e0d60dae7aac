use vstd::prelude::*;
use crate::cursor::wrap16;
use crate::emblem::{
    in_i16, spec_stage_center, spec_stage_rect, stage_center, stage_center_fits, stage_center_fits_at,
    stage_rect,
};
use crate::geometry::{Rect, clamp_i16, clamp_int};
use crate::tutorial::ENRAGE_HIT_COUNT;

verus! {

/// Emblem ticks the enraged emblem waits before it starts chasing.
pub const EMBLEM_GRACE_TICKS: u8 = 10;

/// Largest sideways step of the chasing emblem per tick.
pub const EMBLEM_CHASE_HORIZONTAL_STEP: i16 = 2;

/// Largest vertical step of the chasing emblem per tick.
pub const EMBLEM_CHASE_VERTICAL_STEP: i16 = 1;

/// A spiral back to rest: where the emblem's offset was when it began and how
/// many steps it has taken since. The path itself is a function of these.
#[derive(Clone, Copy, Debug, PartialEq, Eq, Structural)]
pub struct ResetSeed {
    pub start_x: i16,
    pub start_y: i16,
    pub steps: u64,
}

/// Where the next step of a spiral back to rest leads: it has settled at
/// rest, or its next offset (rounded to cells).
#[derive(Clone, Copy, Debug, PartialEq, Eq, Structural)]
pub enum ResetProgress {
    Settled,
    At(i16, i16),
}

/// The emblem's mood and how far it has been pulled from its resting place.
#[derive(Clone, Copy, Debug, PartialEq, Eq, Structural)]
pub struct EmblemState {
    pub offset_x: i16,
    pub offset_y: i16,
    pub hit_count: u8,
    pub enraged: bool,
    pub grace_ticks: u8,
    pub reset_motion: Option<ResetSeed>,
}

/// A calm emblem at rest.
pub open spec fn resting_emblem() -> EmblemState {
    EmblemState {
        offset_x: 0,
        offset_y: 0,
        hit_count: 0,
        enraged: false,
        grace_ticks: 0,
        reset_motion: None,
    }
}

/// `delta` limited to `[-limit, limit]`.
pub open spec fn spec_clamp_step(delta: i16, limit: i16) -> i16 {
    clamp_int(delta as int, -limit, limit as int) as i16
}

/// Limits a step to at most `limit` in either direction.
pub fn clamp_step(delta: i16, limit: i16) -> (r: i16)
    requires
        limit >= 0,
    ensures
        r == spec_clamp_step(delta, limit),
{
    clamp_i16(delta, -limit, limit)
}

/// The emblem after a touch: one more hit, and at the fifth it becomes
/// enraged and starts its grace period.
pub open spec fn spec_register_hit(e: EmblemState) -> EmblemState {
    let hits = if e.hit_count < u8::MAX { (e.hit_count + 1) as u8 } else { e.hit_count };
    if hits >= ENRAGE_HIT_COUNT && !e.enraged {
        EmblemState { hit_count: hits, enraged: true, grace_ticks: EMBLEM_GRACE_TICKS, ..e }
    } else {
        EmblemState { hit_count: hits, ..e }
    }
}

/// The emblem after it is reset: calm again, spiralling home unless it is
/// already there.
pub open spec fn spec_reset(e: EmblemState) -> EmblemState {
    EmblemState {
        hit_count: 0,
        enraged: false,
        grace_ticks: 0,
        reset_motion: if e.offset_x == 0 && e.offset_y == 0 {
            None
        } else {
            Some(ResetSeed { start_x: e.offset_x, start_y: e.offset_y, steps: 0 })
        },
        ..e
    }
}

/// The emblem after one step of its spiral home, given where that step leads.
pub open spec fn spec_tick_reset(e: EmblemState, progress: ResetProgress) -> (EmblemState, bool) {
    match e.reset_motion {
        None => (e, false),
        Some(seed) => match progress {
            ResetProgress::Settled => (
                EmblemState { offset_x: 0, offset_y: 0, reset_motion: None, ..e },
                false,
            ),
            ResetProgress::At(x, y) => (
                EmblemState {
                    offset_x: x,
                    offset_y: y,
                    reset_motion: if x == 0 && y == 0 {
                        None
                    } else {
                        Some(
                            ResetSeed {
                                steps: if seed.steps < u64::MAX { (seed.steps + 1) as u64 } else { seed.steps },
                                ..seed
                            },
                        )
                    },
                    ..e
                },
                true,
            ),
        },
    }
}

/// Offset from the moved stage's middle in `area` to the cursor's middle
/// `(cursor_x, cursor_y)`, with the cursor's coordinates read as signed
/// 16-bit numbers.
pub open spec fn chase_delta(e: EmblemState, area: Rect, cursor_x: u16, cursor_y: u16) -> (int, int) {
    let c = spec_stage_center(spec_stage_rect(area), e.offset_x as int, e.offset_y as int);
    (wrap16(cursor_x) - c.0, wrap16(cursor_y) - c.1)
}

/// The chase step of a tick can be computed in signed 16-bit arithmetic.
pub open spec fn chase_fits(e: EmblemState, area: Rect, cursor_x: u16, cursor_y: u16) -> bool {
    let d = chase_delta(e, area, cursor_x, cursor_y);
    let sx = spec_clamp_step(d.0 as i16, EMBLEM_CHASE_HORIZONTAL_STEP);
    let sy = spec_clamp_step(d.1 as i16, EMBLEM_CHASE_VERTICAL_STEP);
    &&& stage_center_fits(spec_stage_rect(area), e.offset_x as int, e.offset_y as int)
    &&& in_i16(d.0)
    &&& in_i16(d.1)
    &&& ((sx != 0 || sy != 0) ==> in_i16(e.offset_x + sx) && in_i16(e.offset_y + sy))
}

/// The emblem after one tick: a spiral home takes its step; otherwise an
/// enraged emblem first waits out its grace period and then moves toward the
/// cursor by at most two columns and one row. Also whether anything changed.
pub open spec fn spec_emblem_tick(
    e: EmblemState,
    area: Rect,
    cursor_x: u16,
    cursor_y: u16,
    progress: ResetProgress,
) -> (EmblemState, bool) {
    if e.reset_motion is Some && spec_tick_reset(e, progress).1 {
        spec_tick_reset(e, progress)
    } else {
        let e1 = spec_tick_reset(e, progress).0;
        if !e1.enraged {
            (e1, false)
        } else if e1.grace_ticks > 0 {
            (EmblemState { grace_ticks: (e1.grace_ticks - 1) as u8, ..e1 }, true)
        } else {
            let d = chase_delta(e1, area, cursor_x, cursor_y);
            let sx = spec_clamp_step(d.0 as i16, EMBLEM_CHASE_HORIZONTAL_STEP);
            let sy = spec_clamp_step(d.1 as i16, EMBLEM_CHASE_VERTICAL_STEP);
            if sx == 0 && sy == 0 {
                (e1, false)
            } else {
                (
                    EmblemState {
                        offset_x: (e1.offset_x + sx) as i16,
                        offset_y: (e1.offset_y + sy) as i16,
                        ..e1
                    },
                    true,
                )
            }
        }
    }
}

/// A tick can be computed: when it reaches the chase, the chase fits.
pub open spec fn emblem_tick_fits(
    e: EmblemState,
    area: Rect,
    cursor_x: u16,
    cursor_y: u16,
    progress: ResetProgress,
) -> bool {
    let e1 = spec_tick_reset(e, progress).0;
    (!(e.reset_motion is Some && spec_tick_reset(e, progress).1) && e1.enraged && e1.grace_ticks == 0)
        ==> chase_fits(e1, area, cursor_x, cursor_y)
}

impl EmblemState {
    /// A calm emblem at rest.
    pub fn new() -> (r: EmblemState)
        ensures
            r == resting_emblem(),
    {
        EmblemState {
            offset_x: 0,
            offset_y: 0,
            hit_count: 0,
            enraged: false,
            grace_ticks: 0,
            reset_motion: None,
        }
    }

    /// Counts a touch; the fifth enrages the emblem, which then waits out a
    /// grace period before it chases.
    pub fn register_hit(&mut self)
        ensures
            *final(self) == spec_register_hit(*old(self)),
    {
        self.hit_count = self.hit_count.saturating_add(1);
        if self.hit_count >= ENRAGE_HIT_COUNT && !self.enraged {
            self.enraged = true;
            self.grace_ticks = EMBLEM_GRACE_TICKS;
        }
    }

    /// Whether the emblem is spiralling back to its resting place.
    pub fn is_resetting(&self) -> (r: bool)
        ensures
            r == self.reset_motion is Some,
    {
        self.reset_motion.is_some()
    }

    /// Whether the emblem is enraged but not chasing yet.
    pub fn in_grace_period(&self) -> (r: bool)
        ensures
            r == (self.enraged && self.grace_ticks > 0),
    {
        self.enraged && self.grace_ticks > 0
    }

    /// Calms the emblem and sends it spiralling home from where it is.
    pub fn reset(&mut self)
        ensures
            *final(self) == spec_reset(*old(self)),
    {
        self.hit_count = 0;
        self.enraged = false;
        self.grace_ticks = 0;
        self.reset_motion = Some(ResetSeed { start_x: self.offset_x, start_y: self.offset_y, steps: 0 });
        if self.offset_x == 0 && self.offset_y == 0 {
            self.reset_motion = None;
        }
    }

    /// Takes one step of the spiral home, to where `progress` says it leads.
    /// Returns whether the emblem moved.
    pub fn tick_reset(&mut self, progress: ResetProgress) -> (moved: bool)
        ensures
            (*final(self), moved) == spec_tick_reset(*old(self), progress),
    {
        let seed = match self.reset_motion {
            Some(seed) => seed,
            None => {
                return false;
            },
        };
        match progress {
            ResetProgress::Settled => {
                self.offset_x = 0;
                self.offset_y = 0;
                self.reset_motion = None;
                false
            },
            ResetProgress::At(x, y) => {
                self.offset_x = x;
                self.offset_y = y;
                self.reset_motion = Some(ResetSeed { steps: seed.steps.saturating_add(1), ..seed });
                if self.offset_x == 0 && self.offset_y == 0 {
                    self.reset_motion = None;
                }
                true
            },
        }
    }

    /// Whether [`EmblemState::tick`] can be computed.
    pub fn tick_fits(&self, area: Rect, cursor_x: u16, cursor_y: u16, progress: ResetProgress) -> (r: bool)
        ensures
            r == emblem_tick_fits(*self, area, cursor_x, cursor_y, progress),
    {
        let mut e = *self;
        let resetting = e.reset_motion.is_some();
        let moved = e.tick_reset(progress);
        if resetting && moved {
            return true;
        }
        if !e.enraged || e.grace_ticks > 0 {
            return true;
        }
        let stage = stage_rect(area);
        if !stage_center_fits_at(stage, e.offset_x, e.offset_y) {
            return false;
        }
        let (emblem_x, emblem_y) = stage_center(area, e.offset_x, e.offset_y);
        let dx = crate::emblem::as_i16(cursor_x) as i32 - emblem_x as i32;
        let dy = crate::emblem::as_i16(cursor_y) as i32 - emblem_y as i32;
        if dx < i16::MIN as i32 || dx > i16::MAX as i32 || dy < i16::MIN as i32 || dy > i16::MAX as i32 {
            return false;
        }
        let step_x = clamp_step(dx as i16, EMBLEM_CHASE_HORIZONTAL_STEP);
        let step_y = clamp_step(dy as i16, EMBLEM_CHASE_VERTICAL_STEP);
        if step_x == 0 && step_y == 0 {
            return true;
        }
        let nx = e.offset_x as i32 + step_x as i32;
        let ny = e.offset_y as i32 + step_y as i32;
        i16::MIN as i32 <= nx && nx <= i16::MAX as i32 && i16::MIN as i32 <= ny && ny <= i16::MAX as i32
    }

    /// Advances the emblem by one tick: a step of its spiral home if it is
    /// resetting; otherwise, once enraged, a tick of its grace period or a
    /// step toward the cursor's middle `(cursor_x, cursor_y)`. Returns
    /// whether anything changed.
    pub fn tick(&mut self, area: Rect, cursor_x: u16, cursor_y: u16, progress: ResetProgress) -> (changed: bool)
        requires
            emblem_tick_fits(*old(self), area, cursor_x, cursor_y, progress),
        ensures
            (*final(self), changed) == spec_emblem_tick(*old(self), area, cursor_x, cursor_y, progress),
    {
        let resetting = self.reset_motion.is_some();
        if self.tick_reset(progress) {
            return true;
        }
        assert(!(resetting && spec_tick_reset(*old(self), progress).1));

        if !self.enraged {
            return false;
        }

        if self.grace_ticks > 0 {
            self.grace_ticks = self.grace_ticks - 1;
            return true;
        }

        let (emblem_x, emblem_y) = stage_center(area, self.offset_x, self.offset_y);
        let desired_x = crate::emblem::as_i16(cursor_x) - emblem_x;
        let desired_y = crate::emblem::as_i16(cursor_y) - emblem_y;
        let step_x = clamp_step(desired_x, EMBLEM_CHASE_HORIZONTAL_STEP);
        let step_y = clamp_step(desired_y, EMBLEM_CHASE_VERTICAL_STEP);

        if step_x == 0 && step_y == 0 {
            return false;
        }

        self.offset_x = self.offset_x + step_x;
        self.offset_y = self.offset_y + step_y;
        true
    }
}

impl Default for EmblemState {
    /// A calm emblem at rest.
    fn default() -> (r: EmblemState)
        ensures
            r == resting_emblem(),
    {
        EmblemState::new()
    }
}

} // verus!
