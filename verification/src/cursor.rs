use vstd::prelude::*;
use crate::geometry::{Rect, clamp_u16, clamp_int, sat_sub, min_int, max_int, COORD_MAX};
use crate::text::{StyledLine, styled};
use crate::tint::Tint;

verus! {

/// How many of the most recent trail cells are kept.
pub const GHOST_LENGTH: usize = 24;

/// How many single-cell moves a recentering cursor makes per tick.
pub const RECENTER_STEPS_PER_TICK: usize = 2;

/// Width and height of the cursor in cells.
pub const CURSOR_SIZE: u16 = 3;

/// Where a spiralling cursor started from, relative to its target, and how
/// many times the orbit has been advanced since. The orbit itself (an angle
/// and a shrinking radius) is a function of these values alone.
#[derive(Clone, Copy, Debug, PartialEq, Eq, Structural)]
pub struct VortexSeed {
    pub offset_x: i32,
    pub offset_y: i32,
    pub advances: u64,
}

/// The cells the spiral aims at after its next one and next two orbit
/// advances.
#[derive(Clone, Copy, Debug)]
pub struct OrbitPoints {
    pub first: (u16, u16),
    pub second: (u16, u16),
}

/// One faded copy of the cursor, left behind on a cell it passed.
#[derive(Clone, Copy, Debug, PartialEq, Eq, Structural)]
pub struct GhostCell {
    pub area: Rect,
    pub edge: Tint,
    pub core: Tint,
}

/// What to draw for the cursor: its ghosts, newest first, and the cursor.
pub struct CursorRender {
    pub ghosts: Vec<GhostCell>,
    pub cursor: Rect,
}

/// The flying cursor: its top-left cell, an optional cell it is spiralling
/// toward, and the trail of cells it recently passed (oldest first).
pub struct Cursor {
    x: u16,
    y: u16,
    initialized: bool,
    target: Option<(u16, u16)>,
    vortex: Option<VortexSeed>,
    trail: Vec<(u16, u16)>,
}

/// The state of a [`Cursor`] as a mathematical value.
pub struct CursorView {
    pub x: u16,
    pub y: u16,
    pub initialized: bool,
    pub target: Option<(u16, u16)>,
    pub vortex: Option<VortexSeed>,
    pub trail: Seq<(u16, u16)>,
}

impl View for Cursor {
    type V = CursorView;

    closed spec fn view(&self) -> CursorView {
        CursorView {
            x: self.x,
            y: self.y,
            initialized: self.initialized,
            target: self.target,
            vortex: self.vortex,
            trail: self.trail@,
        }
    }
}

/// `value` moved `amount` cells toward `target`, never past it.
pub open spec fn spec_step_toward(value: u16, target: u16, amount: u16) -> u16 {
    if value < target {
        min_int(value + amount, target as int) as u16
    } else if value > target {
        max_int(value - amount, target as int) as u16
    } else {
        value
    }
}

/// `value` shifted by `delta`, held within the coordinate range.
pub open spec fn spec_apply_delta(value: u16, delta: i16) -> u16 {
    clamp_int(value + delta, 0, COORD_MAX as int) as u16
}

/// Distance between two coordinates.
pub open spec fn gap(a: u16, b: u16) -> nat {
    if a >= b { (a - b) as nat } else { (b - a) as nat }
}

/// The cells a cursor passes on its way from `(x, y)` to `(tx, ty)`, moving
/// one cell per step on each axis that is not yet aligned; the start is
/// included, the end is not.
pub open spec fn path_between(x: u16, y: u16, tx: u16, ty: u16) -> Seq<(u16, u16)>
    decreases gap(x, tx) + gap(y, ty),
{
    if x == tx && y == ty {
        Seq::empty()
    } else {
        seq![(x, y)] + path_between(
            spec_step_toward(x, tx, 1),
            spec_step_toward(y, ty, 1),
            tx,
            ty,
        )
    }
}

/// The last `n` elements of `s` (all of it when it is shorter).
pub open spec fn keep_last<A>(s: Seq<A>, n: nat) -> Seq<A> {
    if s.len() > n { s.skip(s.len() - n) } else { s }
}

/// The trail after the cursor travelled from `(x, y)` to `(tx, ty)`.
pub open spec fn spec_record(trail: Seq<(u16, u16)>, x: u16, y: u16, tx: u16, ty: u16) -> Seq<(u16, u16)> {
    keep_last(trail + path_between(x, y, tx, ty), GHOST_LENGTH as nat)
}

/// Rightmost column the cursor's left edge may take inside `area`.
pub open spec fn reach_x(area: Rect) -> int {
    area.x + sat_sub(area.width as int, CURSOR_SIZE as int)
}

/// Lowest row the cursor's top edge may take inside `area`.
pub open spec fn reach_y(area: Rect) -> int {
    area.y + sat_sub(area.height as int, CURSOR_SIZE as int)
}

/// The rightmost column and lowest row of the cursor's range are coordinates.
pub open spec fn reach_fits(area: Rect) -> bool {
    reach_x(area) <= COORD_MAX && reach_y(area) <= COORD_MAX
}

/// `p` is a position the whole cursor fits at inside `area`.
pub open spec fn within_reach(p: (u16, u16), area: Rect) -> bool {
    area.x <= p.0 <= reach_x(area) && area.y <= p.1 <= reach_y(area)
}

/// The test that keeps a trail cell when the cursor is fitted to `area`.
pub open spec fn reach_filter(area: Rect) -> spec_fn((u16, u16)) -> bool {
    |p: (u16, u16)| within_reach(p, area)
}

/// A spiral that starts at `(x, y)` around `(tx, ty)`.
pub open spec fn fresh_seed(x: u16, y: u16, tx: u16, ty: u16) -> VortexSeed {
    VortexSeed { offset_x: (x - tx) as i32, offset_y: (y - ty) as i32, advances: 0 }
}

/// The cursor's range inside `area` can be computed: on first use only its
/// middle is needed, afterwards its whole extent.
pub open spec fn bounds_fit(v: CursorView, area: Rect) -> bool {
    if v.initialized {
        reach_fits(area)
    } else {
        area.x + sat_sub(area.width as int, CURSOR_SIZE as int) / 2 <= COORD_MAX
            && area.y + sat_sub(area.height as int, CURSOR_SIZE as int) / 2 <= COORD_MAX
    }
}

/// The cursor after it was fitted to `area`: on first use it is placed in the
/// middle; afterwards its position and target are clamped into its range,
/// the spiral restarts from the clamped position, and trail cells outside the
/// range are dropped.
pub open spec fn spec_fit(v: CursorView, area: Rect) -> CursorView {
    if !v.initialized {
        CursorView {
            x: (area.x + sat_sub(area.width as int, CURSOR_SIZE as int) / 2) as u16,
            y: (area.y + sat_sub(area.height as int, CURSOR_SIZE as int) / 2) as u16,
            initialized: true,
            ..v
        }
    } else {
        let x = clamp_int(v.x as int, area.x as int, reach_x(area)) as u16;
        let y = clamp_int(v.y as int, area.y as int, reach_y(area)) as u16;
        let target = match v.target {
            Some(t) => Some(
                (
                    clamp_int(t.0 as int, area.x as int, reach_x(area)) as u16,
                    clamp_int(t.1 as int, area.y as int, reach_y(area)) as u16,
                ),
            ),
            None => None,
        };
        CursorView {
            x,
            y,
            initialized: true,
            target,
            vortex: match target {
                Some(t) => Some(fresh_seed(x, y, t.0, t.1)),
                None => None,
            },
            trail: v.trail.filter(reach_filter(area)),
        }
    }
}

/// The cell a recentering cursor aims for when asked to centre on `(x, y)`:
/// one cell up and left of it (so that the cursor's middle lands there),
/// clamped into the cursor's range.
pub open spec fn spec_clamp_target(area: Rect, x: u16, y: u16) -> (u16, u16) {
    (
        clamp_int(sat_sub(x as int, 1), area.x as int, reach_x(area)) as u16,
        clamp_int(sat_sub(y as int, 1), area.y as int, reach_y(area)) as u16,
    )
}

/// Fitting the cursor to `area` and reading its middle cell stays within
/// the coordinate range.
pub open spec fn center_fits(v: CursorView, area: Rect) -> bool {
    bounds_fit(v, area) && spec_fit(v, area).x < COORD_MAX && spec_fit(v, area).y < COORD_MAX
}

/// The cursor's range in `area` can be computed, and a retarget (which only
/// clamps a target that exists) stays within the coordinate range.
pub open spec fn retarget_fits(v: CursorView, area: Rect) -> bool {
    bounds_fit(v, area) && (spec_fit(v, area).target is Some ==> reach_fits(area))
}

/// `r` draws the cursor `v` in `area`: a ghost for every trail cell, newest
/// first and brightest, and the cursor shifted by `(offset_x, offset_y)` but
/// kept inside its range.
pub open spec fn cursor_render_ok(r: CursorRender, v: CursorView, area: Rect, offset_x: i16, offset_y: i16) -> bool {
    &&& r.ghosts@.len() == v.trail.len()
    &&& forall|i: int|
        0 <= i < r.ghosts@.len() ==> {
            let p = #[trigger] v.trail[v.trail.len() - 1 - i];
            r.ghosts@[i] == GhostCell {
                area: Rect::spec_new(p.0, p.1, CURSOR_SIZE, CURSOR_SIZE),
                edge: spec_ghost_tints(i).0,
                core: spec_ghost_tints(i).1,
            }
        }
    &&& r.cursor == Rect::spec_new(
        clamp_int(spec_apply_delta(v.x, offset_x) as int, area.x as int, reach_x(area)) as u16,
        clamp_int(spec_apply_delta(v.y, offset_y) as int, area.y as int, reach_y(area)) as u16,
        CURSOR_SIZE,
        CURSOR_SIZE,
    )
}

/// The cursor after recentering on `(x, y)` in `area`, and whether its
/// target changed.
pub open spec fn spec_recenter(v: CursorView, area: Rect, x: u16, y: u16) -> (CursorView, bool) {
    let f = spec_fit(v, area);
    let t = spec_clamp_target(area, x, y);
    (
        CursorView { target: Some(t), vortex: Some(fresh_seed(f.x, f.y, t.0, t.1)), ..f },
        f.target != Some(t),
    )
}

/// The cursor after retargeting a recentering on `(x, y)` in `area`, and
/// whether its target changed.
pub open spec fn spec_retarget(v: CursorView, area: Rect, x: u16, y: u16) -> (CursorView, bool) {
    let f = spec_fit(v, area);
    let t = spec_clamp_target(area, x, y);
    if f.target is None {
        (f, false)
    } else {
        (CursorView { target: Some(t), ..f }, f.target != Some(t))
    }
}

/// The cursor after moving by `(dx, dy)`, and whether it moved.
pub open spec fn spec_move_by(v: CursorView, dx: i16, dy: i16) -> (CursorView, bool) {
    let nx = spec_apply_delta(v.x, dx);
    let ny = spec_apply_delta(v.y, dy);
    let moved = nx != v.x || ny != v.y;
    (
        CursorView {
            x: nx,
            y: ny,
            target: None,
            vortex: None,
            trail: if moved { spec_record(v.trail, v.x, v.y, nx, ny) } else { v.trail },
            ..v
        },
        moved,
    )
}

/// `v` read as a signed 16-bit number (its two's-complement reinterpretation).
pub open spec fn wrap16(v: u16) -> int {
    if v < 32768 { v as int } else { v - 65536 }
}

/// Squared distance from `(x, y)` to `(tx, ty)`, with coordinates read as
/// signed 16-bit numbers.
pub open spec fn offset_sq(x: u16, y: u16, tx: u16, ty: u16) -> int {
    let dx = wrap16(tx) - wrap16(x);
    let dy = wrap16(ty) - wrap16(y);
    dx * dx + dy * dy
}

/// The squared distance can be computed in signed 16-bit arithmetic.
pub open spec fn offset_fits(x: u16, y: u16, tx: u16, ty: u16) -> bool {
    offset_sq(x, y, tx, ty) <= i16::MAX
}

/// Within one and a half cells of the target the cursor steps straight at it;
/// farther away it follows the orbit.
pub open spec fn near_target(x: u16, y: u16, tx: u16, ty: u16) -> bool {
    offset_sq(x, y, tx, ty) <= 2
}

/// The orbit points of a tick in the order the spiral aims at them: after
/// its next orbit advance, then after the one following.
pub open spec fn orbit_seq(orbit: OrbitPoints) -> Seq<(u16, u16)> {
    seq![orbit.first, orbit.second]
}

/// Where `n` more single-cell spiral moves take the cursor from `(x, y)`, and
/// how many orbit advances have been used by then (`used` at the start).
/// `orbit[k]` is the cell aimed at after the `k`-th orbit advance.
pub open spec fn vortex_walk(
    x: u16,
    y: u16,
    tx: u16,
    ty: u16,
    orbit: Seq<(u16, u16)>,
    n: nat,
    used: nat,
) -> (u16, u16, nat)
    decreases n,
{
    if n == 0 || (x == tx && y == ty) {
        (x, y, used)
    } else if near_target(x, y, tx, ty) {
        vortex_walk(
            spec_step_toward(x, tx, 1),
            spec_step_toward(y, ty, 1),
            tx,
            ty,
            orbit,
            (n - 1) as nat,
            used,
        )
    } else {
        let d = orbit[used as int];
        vortex_walk(
            spec_step_toward(x, d.0, 1),
            spec_step_toward(y, d.1, 1),
            tx,
            ty,
            orbit,
            (n - 1) as nat,
            used + 1,
        )
    }
}

/// Every distance the walk computes fits in signed 16-bit arithmetic, and an
/// orbit point is given for every orbit advance it makes.
pub open spec fn walk_fits(
    x: u16,
    y: u16,
    tx: u16,
    ty: u16,
    orbit: Seq<(u16, u16)>,
    n: nat,
    used: nat,
) -> bool
    decreases n,
{
    if n == 0 || (x == tx && y == ty) {
        true
    } else {
        offset_fits(x, y, tx, ty) && if near_target(x, y, tx, ty) {
            walk_fits(
                spec_step_toward(x, tx, 1),
                spec_step_toward(y, ty, 1),
                tx,
                ty,
                orbit,
                (n - 1) as nat,
                used,
            )
        } else {
            let d = orbit[used as int];
            used < orbit.len() && walk_fits(
                spec_step_toward(x, d.0, 1),
                spec_step_toward(y, d.1, 1),
                tx,
                ty,
                orbit,
                (n - 1) as nat,
                used + 1,
            )
        }
    }
}

/// The spiral a tick continues: the one in progress, or a new one from the
/// current position.
pub open spec fn tick_seed(v: CursorView, tx: u16, ty: u16) -> VortexSeed {
    match v.vortex {
        Some(s) => s,
        None => fresh_seed(v.x, v.y, tx, ty),
    }
}

/// A tick moves the cursor: it has a target it has not reached.
pub open spec fn tick_moves(v: CursorView) -> bool {
    match v.target {
        Some(t) => v.x != t.0 || v.y != t.1,
        None => false,
    }
}

/// The spiral move of a tick can be computed without overflow.
pub open spec fn tick_fits(v: CursorView, orbit: OrbitPoints) -> bool {
    match v.target {
        Some(t) => tick_moves(v) ==> walk_fits(
            v.x,
            v.y,
            t.0,
            t.1,
            orbit_seq(orbit),
            RECENTER_STEPS_PER_TICK as nat,
            0,
        ),
        None => true,
    }
}

/// The cursor after the spiral part of a tick: it moved along the orbit,
/// recording the cells it passed, and forgot its target once it arrived.
pub open spec fn spec_tick_move(v: CursorView, orbit: OrbitPoints) -> CursorView {
    match v.target {
        Some(t) => {
            let moved = if tick_moves(v) {
                let w = vortex_walk(
                    v.x,
                    v.y,
                    t.0,
                    t.1,
                    orbit_seq(orbit),
                    RECENTER_STEPS_PER_TICK as nat,
                    0,
                );
                let seed = tick_seed(v, t.0, t.1);
                CursorView {
                    x: w.0,
                    y: w.1,
                    trail: spec_record(v.trail, v.x, v.y, w.0, w.1),
                    vortex: Some(
                        VortexSeed {
                            advances: min_int(seed.advances + w.2, u64::MAX as int) as u64,
                            ..seed
                        },
                    ),
                    ..v
                }
            } else {
                v
            };
            if moved.x == t.0 && moved.y == t.1 {
                CursorView { target: None, vortex: None, ..moved }
            } else {
                moved
            }
        },
        None => v,
    }
}

/// The cursor after a tick: the spiral move, and when the cursor did not
/// move, the oldest trail cell fades.
pub open spec fn spec_tick(v: CursorView, orbit: OrbitPoints) -> CursorView {
    let m = spec_tick_move(v, orbit);
    if tick_moves(v) || m.trail.len() == 0 {
        m
    } else {
        CursorView { trail: m.trail.drop_first(), ..m }
    }
}

/// A tick changed something worth redrawing.
pub open spec fn spec_tick_dirty(v: CursorView, orbit: OrbitPoints) -> bool {
    tick_moves(v) || v.trail.len() > 0
}

/// Edge and core colour of the ghost `index` steps back from the cursor.
pub open spec fn spec_ghost_tints(index: int) -> (Tint, Tint) {
    if index == 0 {
        (Tint::Indexed(188), Tint::Indexed(117))
    } else if index == 1 {
        (Tint::Indexed(145), Tint::Indexed(74))
    } else if index == 2 {
        (Tint::Indexed(103), Tint::Indexed(67))
    } else {
        (Tint::Indexed(60), Tint::Indexed(60))
    }
}

/// Edge and core colour of the ghost `index` steps back from the cursor:
/// the nearest ghosts are brightest.
pub fn ghost_tints(index: usize) -> (r: (Tint, Tint))
    ensures
        r == spec_ghost_tints(index as int),
{
    match index {
        0 => (Tint::Indexed(188), Tint::Indexed(117)),
        1 => (Tint::Indexed(145), Tint::Indexed(74)),
        2 => (Tint::Indexed(103), Tint::Indexed(67)),
        _ => (Tint::Indexed(60), Tint::Indexed(60)),
    }
}

/// `r` draws the three rows of a cursor with `edge` around a `core` block.
pub open spec fn glyph_ok(r: Seq<StyledLine>, edge: Tint, core: Tint) -> bool {
    &&& r.len() == 3
    &&& r[0].text@ == "▛▀▜"@ && r[0].tint == Some(edge)
    &&& r[1].text@ == "▌█▐"@ && r[1].tint == Some(core)
    &&& r[2].text@ == "▙▄▟"@ && r[2].tint == Some(edge)
}

/// The three rows of a cursor drawn with `edge` around a `core` block.
fn cursor_rows(edge: Tint, core: Tint) -> (r: Vec<StyledLine>)
    ensures
        glyph_ok(r@, edge, core),
{
    let mut rows: Vec<StyledLine> = Vec::new();
    rows.push(styled("▛▀▜", edge));
    rows.push(styled("▌█▐", core));
    rows.push(styled("▙▄▟", edge));
    rows
}

/// The ghost `index` steps back from the cursor, drawn in its faded colours.
pub fn ghost_glyph(index: usize) -> (r: Vec<StyledLine>)
    ensures
        glyph_ok(r@, spec_ghost_tints(index as int).0, spec_ghost_tints(index as int).1),
{
    let (edge, core) = ghost_tints(index);
    cursor_rows(edge, core)
}

/// The cursor itself: a pale frame around a light blue block.
pub fn cursor_glyph() -> (r: Vec<StyledLine>)
    ensures
        glyph_ok(r@, Tint::Indexed(230), Tint::Indexed(159)),
{
    cursor_rows(Tint::Indexed(230), Tint::Indexed(159))
}

/// Moves `value` up to `amount` cells toward `target` without passing it.
pub fn step_toward_by(value: u16, target: u16, amount: u16) -> (r: u16)
    ensures
        r == spec_step_toward(value, target, amount),
{
    if value < target {
        let v = value.saturating_add(amount);
        if v < target { v } else { target }
    } else if value > target {
        let v = value.saturating_sub(amount);
        if v > target { v } else { target }
    } else {
        value
    }
}

/// Shifts `value` by `delta`, stopping at the ends of the coordinate range.
pub fn apply_delta(value: u16, delta: i16) -> (r: u16)
    ensures
        r == spec_apply_delta(value, delta),
{
    if delta >= 0 {
        value.saturating_add(delta as u16)
    } else {
        let magnitude: u16 = if delta == i16::MIN { 32768 } else { (-delta) as u16 };
        value.saturating_sub(magnitude)
    }
}

/// The cell to aim for so that the cursor's middle lands on `(x, y)`.
pub fn clamp_target(area: Rect, x: u16, y: u16) -> (r: (u16, u16))
    requires
        reach_fits(area),
    ensures
        r == spec_clamp_target(area, x, y),
{
    let max_x = area.x + area.width.saturating_sub(CURSOR_SIZE);
    let max_y = area.y + area.height.saturating_sub(CURSOR_SIZE);
    (clamp_u16(x.saturating_sub(1), area.x, max_x), clamp_u16(y.saturating_sub(1), area.y, max_y))
}

/// `v` read as a signed 16-bit number.
fn as_signed(v: u16) -> (r: i32)
    ensures
        r == wrap16(v),
{
    if v < 32768 {
        v as i32
    } else {
        v as i32 - 65536
    }
}

/// Squared distance from `(x, y)` to `(tx, ty)` in signed 16-bit terms.
fn squared_offset(x: u16, y: u16, tx: u16, ty: u16) -> (r: i32)
    requires
        offset_fits(x, y, tx, ty),
    ensures
        r == offset_sq(x, y, tx, ty),
{
    let dx = as_signed(tx) - as_signed(x);
    let dy = as_signed(ty) - as_signed(y);
    assert(dx * dx >= 0 && dy * dy >= 0) by (nonlinear_arith);
    assert(-200 < dx < 200 && -200 < dy < 200) by (nonlinear_arith)
        requires
            dx * dx + dy * dy <= 32767,
            dx * dx >= 0,
            dy * dy >= 0,
    ;
    assert(dx * dx <= 40000 && dy * dy <= 40000) by (nonlinear_arith)
        requires
            -200 < dx < 200,
            -200 < dy < 200,
    ;
    dx * dx + dy * dy
}

/// `n` spiral moves change each coordinate by at most `n`.
pub proof fn lemma_walk_bounded(
    x: u16,
    y: u16,
    tx: u16,
    ty: u16,
    orbit: Seq<(u16, u16)>,
    n: nat,
    used: nat,
)
    ensures
        gap(vortex_walk(x, y, tx, ty, orbit, n, used).0, x) <= n,
        gap(vortex_walk(x, y, tx, ty, orbit, n, used).1, y) <= n,
        vortex_walk(x, y, tx, ty, orbit, n, used).2 >= used,
    decreases n,
{
    if n > 0 && !(x == tx && y == ty) {
        let d = orbit[used as int];
        let near = near_target(x, y, tx, ty);
        let nx = if near { spec_step_toward(x, tx, 1) } else { spec_step_toward(x, d.0, 1) };
        let ny = if near { spec_step_toward(y, ty, 1) } else { spec_step_toward(y, d.1, 1) };
        let nu = if near { used } else { used + 1 };
        lemma_walk_bounded(nx, ny, tx, ty, orbit, (n - 1) as nat, nu);
    }
}

/// A walk that starts on its target stays there and uses no orbit point.
pub proof fn lemma_walk_at_target(tx: u16, ty: u16, orbit: Seq<(u16, u16)>, n: nat, used: nat)
    ensures
        vortex_walk(tx, ty, tx, ty, orbit, n, used) == (tx, ty, used),
{
}

/// A walk of at least one move that starts on or next to its target, and
/// whose distances fit, ends on the target without using an orbit point.
pub proof fn lemma_walk_from_adjacent(
    x: u16,
    y: u16,
    tx: u16,
    ty: u16,
    orbit: Seq<(u16, u16)>,
    n: nat,
    used: nat,
)
    requires
        n >= 1,
        gap(x, tx) <= 1,
        gap(y, ty) <= 1,
        walk_fits(x, y, tx, ty, orbit, n, used),
    ensures
        vortex_walk(x, y, tx, ty, orbit, n, used) == (tx, ty, used),
{
    if !(x == tx && y == ty) {
        assert(offset_fits(x, y, tx, ty));
        assert(near_target(x, y, tx, ty)) by {
            let dx = wrap16(tx) - wrap16(x);
            let dy = wrap16(ty) - wrap16(y);
            assert(-1 <= dx <= 1) by {
                if dx < -1 || dx > 1 {
                    assert(dx * dx > i16::MAX) by (nonlinear_arith)
                        requires
                            dx < -1 || dx > 1,
                            dx == wrap16(tx) - wrap16(x),
                            gap(x, tx) <= 1,
                            wrap16(tx) == (if tx < 32768 { tx as int } else { tx - 65536 }),
                            wrap16(x) == (if x < 32768 { x as int } else { x - 65536 }),
                    ;
                    assert(dy * dy >= 0) by (nonlinear_arith);
                }
            }
            assert(-1 <= dy <= 1) by {
                if dy < -1 || dy > 1 {
                    assert(dy * dy > i16::MAX) by (nonlinear_arith)
                        requires
                            dy < -1 || dy > 1,
                            dy == wrap16(ty) - wrap16(y),
                            gap(y, ty) <= 1,
                            wrap16(ty) == (if ty < 32768 { ty as int } else { ty - 65536 }),
                            wrap16(y) == (if y < 32768 { y as int } else { y - 65536 }),
                    ;
                    assert(dx * dx >= 0) by (nonlinear_arith);
                }
            }
            assert(dx * dx <= 1 && dy * dy <= 1) by (nonlinear_arith)
                requires
                    -1 <= dx <= 1,
                    -1 <= dy <= 1,
            ;
        }
        assert(spec_step_toward(x, tx, 1) == tx);
        assert(spec_step_toward(y, ty, 1) == ty);
        lemma_walk_at_target(tx, ty, orbit, (n - 1) as nat, used);
    }
}

/// Up to `steps` single-cell moves of a cursor spiralling toward
/// `(target_x, target_y)`: near the target it steps straight at it,
/// otherwise at the next orbit point, `orbit[k]` being the cell aimed at
/// after the `k`-th orbit advance. Returns the end position and how many
/// orbit points were used. Each coordinate moves by at most `steps`; a
/// cursor on its target stays, and one next to it steps onto it, without
/// advancing the orbit.
fn vortex_step(
    start_x: u16,
    start_y: u16,
    target_x: u16,
    target_y: u16,
    orbit: &Vec<(u16, u16)>,
    steps: usize,
) -> (r: (u16, u16, usize))
    requires
        walk_fits(start_x, start_y, target_x, target_y, orbit@, steps as nat, 0),
    ensures
        ({
            let w = vortex_walk(start_x, start_y, target_x, target_y, orbit@, steps as nat, 0);
            r.0 == w.0 && r.1 == w.1 && r.2 == w.2
        }),
        gap(r.0, start_x) <= steps,
        gap(r.1, start_y) <= steps,
        start_x == target_x && start_y == target_y ==> r == (start_x, start_y, 0usize),
        steps >= 1 && gap(start_x, target_x) <= 1 && gap(start_y, target_y) <= 1 ==> r.0 == target_x
            && r.1 == target_y && r.2 == 0,
{
    proof {
        lemma_walk_bounded(start_x, start_y, target_x, target_y, orbit@, steps as nat, 0);
        lemma_walk_at_target(target_x, target_y, orbit@, steps as nat, 0);
        if steps >= 1 && gap(start_x, target_x) <= 1 && gap(start_y, target_y) <= 1 {
            lemma_walk_from_adjacent(start_x, start_y, target_x, target_y, orbit@, steps as nat, 0);
        }
    }
    let mut x = start_x;
    let mut y = start_y;
    let mut used: usize = 0;
    let mut i: usize = 0;
    while i < steps
        invariant
            i <= steps,
            used <= i,
            vortex_walk(start_x, start_y, target_x, target_y, orbit@, steps as nat, 0)
                == vortex_walk(x, y, target_x, target_y, orbit@, (steps - i) as nat, used as nat),
            walk_fits(x, y, target_x, target_y, orbit@, (steps - i) as nat, used as nat),
        ensures
            vortex_walk(start_x, start_y, target_x, target_y, orbit@, steps as nat, 0)
                == (x, y, used as nat),
        decreases steps - i,
    {
        if x == target_x && y == target_y {
            break;
        }
        let distance = squared_offset(x, y, target_x, target_y);
        if distance <= 2 {
            x = step_toward_by(x, target_x, 1);
            y = step_toward_by(y, target_y, 1);
        } else {
            let desired = orbit[used];
            x = step_toward_by(x, desired.0, 1);
            y = step_toward_by(y, desired.1, 1);
            used = used + 1;
        }
        i = i + 1;
    }
    (x, y, used)
}

/// Whether every distance of `steps` spiral moves from `(x, y)` toward
/// `(tx, ty)` fits in signed 16-bit arithmetic and `orbit` holds a point for
/// every orbit advance they make.
fn walk_fits_exec(x: u16, y: u16, tx: u16, ty: u16, orbit: &Vec<(u16, u16)>, steps: usize) -> (r: bool)
    ensures
        r == walk_fits(x, y, tx, ty, orbit@, steps as nat, 0),
{
    let mut cx = x;
    let mut cy = y;
    let mut used: usize = 0;
    let mut i: usize = 0;
    while i < steps
        invariant
            i <= steps,
            used <= i,
            walk_fits(x, y, tx, ty, orbit@, steps as nat, 0) == walk_fits(
                cx,
                cy,
                tx,
                ty,
                orbit@,
                (steps - i) as nat,
                used as nat,
            ),
        decreases steps - i,
    {
        if cx == tx && cy == ty {
            return true;
        }
        let dx = as_signed(tx) as i64 - as_signed(cx) as i64;
        let dy = as_signed(ty) as i64 - as_signed(cy) as i64;
        assert(-70000 < dx < 70000 && -70000 < dy < 70000);
        assert(0 <= dx * dx <= 4900000000 && 0 <= dy * dy <= 4900000000) by (nonlinear_arith)
            requires
                -70000 < dx < 70000,
                -70000 < dy < 70000,
        ;
        let sq = dx * dx + dy * dy;
        if sq > i16::MAX as i64 {
            return false;
        }
        if sq <= 2 {
            cx = step_toward_by(cx, tx, 1);
            cy = step_toward_by(cy, ty, 1);
        } else {
            if used >= orbit.len() {
                return false;
            }
            let desired = orbit[used];
            cx = step_toward_by(cx, desired.0, 1);
            cy = step_toward_by(cy, desired.1, 1);
            used = used + 1;
        }
        i = i + 1;
    }
    true
}

/// The orbit points of a tick, in the order the spiral aims at them.
fn orbit_vec(orbit: OrbitPoints) -> (r: Vec<(u16, u16)>)
    ensures
        r@ == orbit_seq(orbit),
{
    let mut points: Vec<(u16, u16)> = Vec::new();
    points.push(orbit.first);
    points.push(orbit.second);
    assert(points@ =~= orbit_seq(orbit));
    points
}

impl Default for Cursor {
    /// A cursor that has not been placed yet, with no target and no trail.
    fn default() -> (c: Cursor)
        ensures
            c@.x == 0,
            c@.y == 0,
            !c@.initialized,
            c@.target is None,
            c@.vortex is None,
            c@.trail.len() == 0,
    {
        Cursor { x: 0, y: 0, initialized: false, target: None, vortex: None, trail: Vec::new() }
    }
}

impl Cursor {
    /// Top-left cell of the cursor.
    pub fn position(&self) -> (r: (u16, u16))
        ensures
            r == (self@.x, self@.y),
    {
        (self.x, self.y)
    }

    /// The cell the cursor is spiralling toward, if any.
    pub fn target(&self) -> (r: Option<(u16, u16)>)
        ensures
            r == self@.target,
    {
        self.target
    }

    /// The recent trail, oldest cell first.
    pub fn trail(&self) -> (r: &Vec<(u16, u16)>)
        ensures
            r@ == self@.trail,
    {
        &self.trail
    }

    /// When the next tick moves the cursor: the spiral it continues and the
    /// target it circles. The caller turns these into orbit points.
    pub fn vortex_plan(&self) -> (r: Option<(VortexSeed, (u16, u16))>)
        ensures
            match self@.target {
                Some(t) => if tick_moves(self@) {
                    r == Some((tick_seed(self@, t.0, t.1), t))
                } else {
                    r is None
                },
                None => r is None,
            },
    {
        match self.target {
            Some((tx, ty)) => {
                if self.x != tx || self.y != ty {
                    let seed = match self.vortex {
                        Some(s) => s,
                        None => VortexSeed {
                            offset_x: self.x as i32 - tx as i32,
                            offset_y: self.y as i32 - ty as i32,
                            advances: 0,
                        },
                    };
                    Some((seed, (tx, ty)))
                } else {
                    None
                }
            },
            None => None,
        }
    }

    /// Moves the cursor by `(dx, dy)` cells, clamped to the coordinate range.
    /// Any recentering stops. When the position changed, the cells passed on
    /// the way join the trail. Returns whether the cursor moved.
    pub fn move_by(&mut self, dx: i16, dy: i16) -> (moved: bool)
        ensures
            (final(self)@, moved) == spec_move_by(old(self)@, dx, dy),
    {
        self.target = None;
        self.vortex = None;
        let old_x = self.x;
        let old_y = self.y;
        let new_x = apply_delta(self.x, dx);
        let new_y = apply_delta(self.y, dy);
        let moved = new_x != old_x || new_y != old_y;

        if moved {
            self.record_path_to(new_x, new_y);
        }
        self.x = new_x;
        self.y = new_y;
        moved
    }

    /// Whether the cursor is spiralling toward a target.
    pub fn is_recentering(&self) -> (r: bool)
        ensures
            r == self@.target is Some,
    {
        self.target.is_some()
    }

    /// Whether the cursor's whole range in `area` lies within the coordinate range.
    pub fn area_fits(area: Rect) -> (r: bool)
        ensures
            r == reach_fits(area),
    {
        (area.x as u32 + area.width.saturating_sub(CURSOR_SIZE) as u32) <= COORD_MAX as u32
            && (area.y as u32 + area.height.saturating_sub(CURSOR_SIZE) as u32) <= COORD_MAX as u32
    }

    /// Stops any recentering.
    pub fn cancel_recenter(&mut self)
        ensures
            final(self)@ == (CursorView { target: None, vortex: None, ..old(self)@ }),
    {
        self.target = None;
        self.vortex = None;
    }

    /// Whether the cursor's range in `area` can be computed for its current state.
    pub fn fits_area(&self, area: Rect) -> (r: bool)
        ensures
            r == bounds_fit(self@, area),
    {
        let max_x = area.width.saturating_sub(CURSOR_SIZE) as u32;
        let max_y = area.height.saturating_sub(CURSOR_SIZE) as u32;
        if self.initialized {
            area.x as u32 + max_x <= COORD_MAX as u32 && area.y as u32 + max_y <= COORD_MAX as u32
        } else {
            area.x as u32 + max_x / 2 <= COORD_MAX as u32 && area.y as u32 + max_y / 2
                <= COORD_MAX as u32
        }
    }

    /// Whether [`Cursor::center`] can be computed in `area`.
    pub fn center_fits(&self, area: Rect) -> (r: bool)
        ensures
            r == center_fits(self@, area),
    {
        if !self.fits_area(area) {
            return false;
        }
        let max_x = area.width.saturating_sub(CURSOR_SIZE);
        let max_y = area.height.saturating_sub(CURSOR_SIZE);
        if !self.initialized {
            area.x + max_x / 2 < COORD_MAX && area.y + max_y / 2 < COORD_MAX
        } else {
            clamp_u16(self.x, area.x, area.x + max_x) < COORD_MAX && clamp_u16(
                self.y,
                area.y,
                area.y + max_y,
            ) < COORD_MAX
        }
    }

    /// Whether [`Cursor::retarget_recenter`] can be computed in `area`.
    pub fn retarget_fits(&self, area: Rect) -> (r: bool)
        ensures
            r == retarget_fits(self@, area),
    {
        if !self.fits_area(area) {
            return false;
        }
        let has_target = self.target.is_some();
        if has_target {
            let max_x = area.width.saturating_sub(CURSOR_SIZE) as u32;
            let max_y = area.height.saturating_sub(CURSOR_SIZE) as u32;
            area.x as u32 + max_x <= COORD_MAX as u32 && area.y as u32 + max_y <= COORD_MAX as u32
        } else {
            true
        }
    }

    /// Places the cursor in `area`: on first use in its middle, afterwards
    /// clamping the position, the target and the trail into the cursor's range.
    fn ensure_in_bounds(&mut self, area: Rect)
        requires
            bounds_fit(old(self)@, area),
        ensures
            final(self)@ == spec_fit(old(self)@, area),
    {
        let max_x = area.width.saturating_sub(CURSOR_SIZE);
        let max_y = area.height.saturating_sub(CURSOR_SIZE);

        if !self.initialized {
            self.x = area.x + max_x / 2;
            self.y = area.y + max_y / 2;
            self.initialized = true;
            return;
        }

        self.x = clamp_u16(self.x, area.x, area.x + max_x);
        self.y = clamp_u16(self.y, area.y, area.y + max_y);
        self.target = match self.target {
            Some((tx, ty)) => Some(
                (clamp_u16(tx, area.x, area.x + max_x), clamp_u16(ty, area.y, area.y + max_y)),
            ),
            None => None,
        };
        self.vortex = match self.target {
            Some((tx, ty)) => Some(
                VortexSeed {
                    offset_x: self.x as i32 - tx as i32,
                    offset_y: self.y as i32 - ty as i32,
                    advances: 0,
                },
            ),
            None => None,
        };

        let ghost old_trail = self.trail@;
        let ghost keep = reach_filter(area);
        let mut kept: Vec<(u16, u16)> = Vec::new();
        let mut i: usize = 0;
        assert(old_trail.take(0).filter(keep) =~= Seq::empty()) by {
            reveal(Seq::filter);
        }
        while i < self.trail.len()
            invariant
                i <= self.trail@.len(),
                self.trail@ == old_trail,
                kept@ == old_trail.take(i as int).filter(keep),
                max_x == sat_sub(area.width as int, CURSOR_SIZE as int),
                max_y == sat_sub(area.height as int, CURSOR_SIZE as int),
                reach_fits(area),
                keep == reach_filter(area),
            decreases self.trail@.len() - i,
        {
            let p = self.trail[i];
            let ghost next = old_trail.take(i + 1);
            assert(next.drop_last() =~= old_trail.take(i as int));
            assert(next.last() == p);
            assert(next.filter(keep) == if keep(p) {
                old_trail.take(i as int).filter(keep).push(p)
            } else {
                old_trail.take(i as int).filter(keep)
            }) by {
                reveal(Seq::filter);
            }
            if p.0 >= area.x && p.1 >= area.y && p.0 <= area.x + max_x && p.1 <= area.y + max_y {
                kept.push(p);
            }
            i = i + 1;
        }
        assert(old_trail.take(i as int) =~= old_trail);
        self.trail = kept;
    }

    /// Fits the cursor to `area` and returns its middle cell.
    pub fn center(&mut self, area: Rect) -> (r: (u16, u16))
        requires
            center_fits(old(self)@, area),
        ensures
            final(self)@ == spec_fit(old(self)@, area),
            r == ((final(self)@.x + 1) as u16, (final(self)@.y + 1) as u16),
    {
        self.ensure_in_bounds(area);
        (self.x + 1, self.y + 1)
    }

    /// Fits the cursor to `area` and returns the cells it covers.
    pub fn rect(&mut self, area: Rect) -> (r: Rect)
        requires
            bounds_fit(old(self)@, area),
        ensures
            final(self)@ == spec_fit(old(self)@, area),
            r == Rect::spec_new(final(self)@.x, final(self)@.y, CURSOR_SIZE, CURSOR_SIZE),
    {
        self.ensure_in_bounds(area);
        Rect::new(self.x, self.y, CURSOR_SIZE, CURSOR_SIZE)
    }

    /// Fits the cursor to `area` and starts a spiral that brings its middle to
    /// `(x, y)` (clamped into range). Returns whether the target changed.
    pub fn recenter_on(&mut self, area: Rect, x: u16, y: u16) -> (changed: bool)
        requires
            reach_fits(area),
        ensures
            (final(self)@, changed) == spec_recenter(old(self)@, area, x, y),
    {
        self.ensure_in_bounds(area);
        let target = clamp_target(area, x, y);
        let changed = match self.target {
            Some(t) => t.0 != target.0 || t.1 != target.1,
            None => true,
        };
        self.target = Some(target);
        self.vortex = Some(
            VortexSeed {
                offset_x: self.x as i32 - target.0 as i32,
                offset_y: self.y as i32 - target.1 as i32,
                advances: 0,
            },
        );
        changed
    }

    /// Fits the cursor to `area` and, when it is recentering, moves its target
    /// to centre on `(x, y)` without restarting the spiral. Returns whether the
    /// target changed.
    pub fn retarget_recenter(&mut self, area: Rect, x: u16, y: u16) -> (changed: bool)
        requires
            retarget_fits(old(self)@, area),
        ensures
            (final(self)@, changed) == spec_retarget(old(self)@, area, x, y),
    {
        self.ensure_in_bounds(area);
        if self.target.is_none() {
            return false;
        }
        let target = clamp_target(area, x, y);
        let changed = match self.target {
            Some(t) => t.0 != target.0 || t.1 != target.1,
            None => true,
        };
        self.target = Some(target);
        changed
    }

    /// Whether the spiral part of the next [`Cursor::tick`] with `orbit` can
    /// be computed in signed 16-bit arithmetic.
    pub fn tick_fits(&self, orbit: OrbitPoints) -> (r: bool)
        ensures
            r == tick_fits(self@, orbit),
    {
        match self.target {
            Some((tx, ty)) => {
                if self.x == tx && self.y == ty {
                    return true;
                }
                let points = orbit_vec(orbit);
                walk_fits_exec(self.x, self.y, tx, ty, &points, RECENTER_STEPS_PER_TICK)
            },
            None => true,
        }
    }

    /// Advances the cursor by one tick. A recentering cursor makes up to two
    /// single-cell spiral moves, aiming at the orbit points given for its
    /// next orbit advances, and stops recentering once it arrives. A cursor
    /// that did not move lets its oldest trail cell fade instead. Returns
    /// whether anything changed.
    pub fn tick(&mut self, orbit: OrbitPoints) -> (dirty: bool)
        requires
            tick_fits(old(self)@, orbit),
        ensures
            final(self)@ == spec_tick(old(self)@, orbit),
            dirty == spec_tick_dirty(old(self)@, orbit),
    {
        let mut dirty = false;
        let mut moved = false;
        let ghost start = self@;

        if let Some((target_x, target_y)) = self.target {
            if self.x != target_x || self.y != target_y {
                let seed = match self.vortex {
                    Some(s) => s,
                    None => VortexSeed {
                        offset_x: self.x as i32 - target_x as i32,
                        offset_y: self.y as i32 - target_y as i32,
                        advances: 0,
                    },
                };
                let points = orbit_vec(orbit);
                let (new_x, new_y, used) = vortex_step(
                    self.x,
                    self.y,
                    target_x,
                    target_y,
                    &points,
                    RECENTER_STEPS_PER_TICK,
                );
                self.record_path_to(new_x, new_y);
                self.x = new_x;
                self.y = new_y;
                self.vortex = Some(
                    VortexSeed { advances: seed.advances.saturating_add(used as u64), ..seed },
                );
                dirty = true;
                moved = true;
            }
            if self.x == target_x && self.y == target_y {
                self.target = None;
                self.vortex = None;
            }
        }
        assert(self@ == spec_tick_move(start, orbit));

        if moved || self.trail.len() == 0 {
            return dirty;
        }

        self.trail.remove(0);
        assert(self.trail@ =~= spec_tick_move(start, orbit).trail.drop_first());
        true
    }

    /// Fits the cursor to `area` and lays out what to draw: a ghost for every
    /// trail cell, newest first, and the cursor itself shifted by
    /// `(offset_x, offset_y)` and kept inside its range.
    pub fn render_with_offset(&mut self, area: Rect, offset_x: i16, offset_y: i16) -> (r: CursorRender)
        requires
            reach_fits(area),
        ensures
            final(self)@ == spec_fit(old(self)@, area),
            cursor_render_ok(r, final(self)@, area, offset_x, offset_y),
    {
        self.ensure_in_bounds(area);
        let n = self.trail.len();
        let mut ghosts: Vec<GhostCell> = Vec::new();
        let mut index: usize = 0;
        while index < n
            invariant
                n == self.trail@.len(),
                index <= n,
                ghosts@.len() == index,
                forall|i: int|
                    0 <= i < index ==> {
                        let p = #[trigger] self.trail@[n - 1 - i];
                        ghosts@[i] == GhostCell {
                            area: Rect::spec_new(p.0, p.1, CURSOR_SIZE, CURSOR_SIZE),
                            edge: spec_ghost_tints(i).0,
                            core: spec_ghost_tints(i).1,
                        }
                    },
            decreases n - index,
        {
            let (x, y) = self.trail[n - 1 - index];
            let (edge, core) = ghost_tints(index);
            ghosts.push(GhostCell { area: Rect::new(x, y, CURSOR_SIZE, CURSOR_SIZE), edge, core });
            index = index + 1;
        }
        let cursor = Rect::new(
            clamp_u16(
                apply_delta(self.x, offset_x),
                area.x,
                area.x + area.width.saturating_sub(CURSOR_SIZE),
            ),
            clamp_u16(
                apply_delta(self.y, offset_y),
                area.y,
                area.y + area.height.saturating_sub(CURSOR_SIZE),
            ),
            CURSOR_SIZE,
            CURSOR_SIZE,
        );
        CursorRender { ghosts, cursor }
    }

    /// Adds the cells between the cursor and `(target_x, target_y)` to the
    /// trail and keeps only the newest ones.
    fn record_path_to(&mut self, target_x: u16, target_y: u16)
        ensures
            final(self)@ == (CursorView {
                trail: spec_record(old(self)@.trail, old(self)@.x, old(self)@.y, target_x, target_y),
                ..old(self)@
            }),
    {
        let ghost full = old(self)@.trail + path_between(self.x, self.y, target_x, target_y);
        let mut x = self.x;
        let mut y = self.y;

        while x != target_x || y != target_y
            invariant
                full == self.trail@ + path_between(x, y, target_x, target_y),
                self.x == old(self).x,
                self.y == old(self).y,
                self.initialized == old(self).initialized,
                self.target == old(self).target,
                self.vortex == old(self).vortex,
            decreases gap(x, target_x) + gap(y, target_y),
        {
            assert(path_between(x, y, target_x, target_y) == seq![(x, y)] + path_between(
                spec_step_toward(x, target_x, 1),
                spec_step_toward(y, target_y, 1),
                target_x,
                target_y,
            ));
            self.trail.push((x, y));
            if x != target_x {
                x = step_toward_by(x, target_x, 1);
            }
            if y != target_y {
                y = step_toward_by(y, target_y, 1);
            }
            assert(full == self.trail@ + path_between(x, y, target_x, target_y));
        }
        assert(self.trail@ == full);

        while self.trail.len() > GHOST_LENGTH
            invariant
                self.trail@ == full.skip(full.len() - self.trail@.len()),
                self.trail@.len() <= full.len(),
                full.len() > GHOST_LENGTH ==> self.trail@.len() >= GHOST_LENGTH,
                full.len() <= GHOST_LENGTH ==> self.trail@ == full,
                self.x == old(self).x,
                self.y == old(self).y,
                self.initialized == old(self).initialized,
                self.target == old(self).target,
                self.vortex == old(self).vortex,
            decreases self.trail@.len(),
        {
            let ghost before = self.trail@;
            self.trail.remove(0);
            assert(self.trail@ == full.skip(full.len() - self.trail@.len()));
        }
    }
}

} // verus!
