use vstd::prelude::*;
use vstd::string::*;
use crate::text::StyledLine;
use crate::chase::{
    EmblemState, ResetProgress, EMBLEM_CHASE_HORIZONTAL_STEP, EMBLEM_CHASE_VERTICAL_STEP,
    EMBLEM_GRACE_TICKS, emblem_tick_fits, spec_emblem_tick, spec_register_hit, spec_reset,
};
use crate::cursor::{
    CursorView, OrbitPoints, GHOST_LENGTH, RECENTER_STEPS_PER_TICK, gap, path_between, reach_filter,
    reach_fits, spec_fit, spec_move_by, spec_recenter, spec_step_toward, spec_tick, tick_moves,
    within_reach, lemma_walk_bounded, spec_clamp_target, keep_last, bounds_fit, reach_x, reach_y, CURSOR_SIZE, orbit_seq, walk_fits, wrap16, offset_fits, near_target,
};
use crate::emblem::{
    spec_clickable, spec_clickable_center, spec_contains, clickable_fits, spec_intersects, spec_stage_rect,
};
use crate::game::{
    AppView, CaughtState, Flow, Key, KeyKind, Timers, key_fits, spec_emblem_frame, spec_handle_key,
    spec_prepare_movement, CAUGHT_SHAKE_TICKS,
};
use crate::geometry::{Rect, clamp_int, sat_sub, COORD_MAX};
use crate::input::{DirectionState, idle, spec_boosted, spec_is_active, spec_press, spec_velocity};
use crate::menu::{MenuState, MENU_ANIMATION_STEPS};
use crate::tutorial::{
    ENRAGE_HIT_COUNT, MovementTutorial, TutorialState, movement_lines_ok, spec_mark, spec_observe,
    spec_record_hit, stage_rank,
};

verus! {

broadcast use vstd::seq_lib::group_filter_ensures;

/// Filtering a sequence a second time with the same test changes nothing.
pub proof fn lemma_filter_twice<A>(s: Seq<A>, p: spec_fn(A) -> bool)
    ensures
        s.filter(p).filter(p) == s.filter(p),
    decreases s.len(),
{
    reveal(Seq::filter);
    if s.len() > 0 {
        lemma_filter_twice(s.drop_last(), p);
        let sub = s.drop_last().filter(p);
        if p(s.last()) {
            assert(sub.push(s.last()).drop_last() =~= sub);
        }
    }
}

/// Once the cursor has been fitted to an area whose cursor range lies within
/// the coordinate range, it sits inside that range, and so do its target and
/// every cell of its trail.
pub proof fn law_fit_keeps_cursor_in_area(v: CursorView, area: Rect)
    requires
        reach_fits(area),
    ensures
        within_reach((spec_fit(v, area).x, spec_fit(v, area).y), area),
        v.initialized ==> match spec_fit(v, area).target {
            Some(t) => within_reach(t, area),
            None => true,
        },
        v.initialized ==> forall|i: int|
            0 <= i < spec_fit(v, area).trail.len() ==> within_reach(
                #[trigger] spec_fit(v, area).trail[i],
                area,
            ),
{
    if v.initialized {
        assert forall|i: int| 0 <= i < spec_fit(v, area).trail.len() implies within_reach(
            #[trigger] spec_fit(v, area).trail[i],
            area,
        ) by {
            v.trail.lemma_filter_pred(reach_filter(area), i);
        }
    }
}

/// Fitting the cursor to an area (what [`crate::cursor::Cursor::center`],
/// [`crate::cursor::Cursor::rect`] and the drawing do first) leaves it placed:
/// on first use it goes to the middle of its range with its target and trail
/// as they were; afterwards its position and target are clamped into the
/// range, each to the nearest edge, and its trail keeps, in order, exactly
/// the cells inside the range.
pub proof fn law_fit_places_cursor(v: CursorView, area: Rect)
    requires
        bounds_fit(v, area),
    ensures
        spec_fit(v, area).initialized,
        !v.initialized ==> {
            &&& spec_fit(v, area).x == area.x + sat_sub(area.width as int, CURSOR_SIZE as int) / 2
            &&& spec_fit(v, area).y == area.y + sat_sub(area.height as int, CURSOR_SIZE as int) / 2
            &&& spec_fit(v, area).target == v.target
            &&& spec_fit(v, area).trail == v.trail
        },
        v.initialized ==> {
            &&& spec_fit(v, area).x == clamp_int(v.x as int, area.x as int, reach_x(area))
            &&& spec_fit(v, area).y == clamp_int(v.y as int, area.y as int, reach_y(area))
            &&& match v.target {
                Some(t) => spec_fit(v, area).target == Some(
                    (
                        clamp_int(t.0 as int, area.x as int, reach_x(area)) as u16,
                        clamp_int(t.1 as int, area.y as int, reach_y(area)) as u16,
                    ),
                ),
                None => spec_fit(v, area).target is None,
            }
            &&& spec_fit(v, area).trail == v.trail.filter(reach_filter(area))
        },
{
}

/// Fitting an already placed cursor to the same area a second time changes
/// nothing.
pub proof fn law_fit_is_idempotent(v: CursorView, area: Rect)
    requires
        v.initialized,
        reach_fits(area),
    ensures
        spec_fit(spec_fit(v, area), area) == spec_fit(v, area),
{
    lemma_filter_twice(v.trail, reach_filter(area));
    assert(spec_fit(spec_fit(v, area), area).trail == spec_fit(v, area).trail);
}

/// The trail never holds more than [`GHOST_LENGTH`] cells: recording a path
/// trims it, fitting only drops cells, and a tick either records or drops.
pub proof fn law_trail_stays_short(v: CursorView, area: Rect, orbit: OrbitPoints, dx: i16, dy: i16)
    requires
        v.trail.len() <= GHOST_LENGTH,
    ensures
        spec_fit(v, area).trail.len() <= GHOST_LENGTH,
        spec_move_by(v, dx, dy).0.trail.len() <= GHOST_LENGTH,
        spec_recenter(v, area, 0, 0).0.trail.len() <= GHOST_LENGTH,
        spec_tick(v, orbit).trail.len() <= GHOST_LENGTH,
{
    v.trail.lemma_filter_len(reach_filter(area));
}

/// A cursor that is not moved by a key stays where it is, reports that it
/// did not move, and keeps its trail; only recentering stops.
pub proof fn law_still_move_changes_nothing(v: CursorView)
    ensures
        ({
            let r = spec_move_by(v, 0, 0);
            &&& !r.1
            &&& r.0 == (CursorView { target: None, vortex: None, ..v })
        }),
{
}

/// Moving by an offset and back by its negation returns the cursor to where
/// it was, as long as the first move did not run into the edge of the
/// coordinate range.
pub proof fn law_move_back_returns(v: CursorView, dx: i16, dy: i16)
    requires
        dx != i16::MIN,
        dy != i16::MIN,
        0 <= v.x + dx <= COORD_MAX,
        0 <= v.y + dy <= COORD_MAX,
    ensures
        ({
            let there = spec_move_by(v, dx, dy).0;
            let back = spec_move_by(there, (-dx) as i16, (-dy) as i16).0;
            back.x == v.x && back.y == v.y
        }),
{
}

/// A tick moves the cursor at most [`RECENTER_STEPS_PER_TICK`] cells along
/// each axis.
pub proof fn law_tick_moves_at_most_two_cells(v: CursorView, orbit: OrbitPoints)
    ensures
        gap(spec_tick(v, orbit).x, v.x) <= RECENTER_STEPS_PER_TICK,
        gap(spec_tick(v, orbit).y, v.y) <= RECENTER_STEPS_PER_TICK,
{
    match v.target {
        Some(t) => {
            if tick_moves(v) {
                lemma_walk_bounded(v.x, v.y, t.0, t.1, orbit_seq(orbit), RECENTER_STEPS_PER_TICK as nat, 0);
            }
        },
        None => {},
    }
}

/// `p <= q` for non-negative numbers carries over to their squares.
proof fn lemma_square_grows(p: int, q: int)
    requires
        0 <= p <= q,
    ensures
        p * p <= q * q,
{
    assert(p * p <= q * q) by (nonlinear_arith)
        requires
            0 <= p <= q,
    ;
}

/// A spiral walk of `n` moves can always be computed, whatever cells the
/// orbit aims at, when every coordinate stays below the signed 16-bit limit
/// for `n` more cells, the distance to the target grown by `n` along each
/// axis still has a square that fits, and an orbit point is given for each
/// move.
pub proof fn law_short_walk_fits(
    x: u16,
    y: u16,
    tx: u16,
    ty: u16,
    orbit: Seq<(u16, u16)>,
    n: nat,
    used: nat,
)
    requires
        x + n <= i16::MAX,
        y + n <= i16::MAX,
        tx <= i16::MAX,
        ty <= i16::MAX,
        (gap(x, tx) + n) * (gap(x, tx) + n) + (gap(y, ty) + n) * (gap(y, ty) + n) <= i16::MAX,
        used + n <= orbit.len(),
    ensures
        walk_fits(x, y, tx, ty, orbit, n, used),
    decreases n,
{
    if n > 0 && !(x == tx && y == ty) {
        let a = gap(x, tx) as int;
        let b = gap(y, ty) as int;
        let dx = wrap16(tx) - wrap16(x);
        let dy = wrap16(ty) - wrap16(y);
        assert(dx * dx == a * a && dy * dy == b * b) by (nonlinear_arith)
            requires
                dx == a || dx == -a,
                dy == b || dy == -b,
        ;
        lemma_square_grows(a, a + n);
        lemma_square_grows(b, b + n);
        assert(offset_fits(x, y, tx, ty));
        let d = orbit[used as int];
        let near = near_target(x, y, tx, ty);
        let nx = if near { spec_step_toward(x, tx, 1) } else { spec_step_toward(x, d.0, 1) };
        let ny = if near { spec_step_toward(y, ty, 1) } else { spec_step_toward(y, d.1, 1) };
        let nu = if near { used } else { used + 1 };
        lemma_square_grows(gap(nx, tx) + (n - 1), a + n);
        lemma_square_grows(gap(ny, ty) + (n - 1), b + n);
        law_short_walk_fits(nx, ny, tx, ty, orbit, (n - 1) as nat, nu);
    }
}

/// A cursor that reaches its target stops recentering; one still on the way
/// keeps its target.
pub proof fn law_tick_arrival_ends_recentering(v: CursorView, orbit: OrbitPoints)
    ensures
        match v.target {
            Some(t) => {
                let r = spec_tick(v, orbit);
                if r.x == t.0 && r.y == t.1 {
                    r.target is None && r.vortex is None
                } else {
                    r.target == Some(t)
                }
            },
            None => spec_tick(v, orbit).target is None,
        },
{
}

/// Consecutive cells of a recorded path differ by at most one cell along
/// each axis, and the first cell is where the cursor started.
pub proof fn law_path_is_continuous(x: u16, y: u16, tx: u16, ty: u16)
    ensures
        path_between(x, y, tx, ty).len() > 0 ==> path_between(x, y, tx, ty)[0] == (x, y),
        forall|i: int|
            0 <= i < path_between(x, y, tx, ty).len() - 1 ==> {
                let a = #[trigger] path_between(x, y, tx, ty)[i];
                let b = path_between(x, y, tx, ty)[i + 1];
                gap(a.0, b.0) <= 1 && gap(a.1, b.1) <= 1
            },
    decreases gap(x, tx) + gap(y, ty),
{
    if !(x == tx && y == ty) {
        let nx = spec_step_toward(x, tx, 1);
        let ny = spec_step_toward(y, ty, 1);
        law_path_is_continuous(nx, ny, tx, ty);
        let rest = path_between(nx, ny, tx, ty);
        let p = path_between(x, y, tx, ty);
        assert(p == seq![(x, y)] + rest);
        assert forall|i: int| 0 <= i < p.len() - 1 implies {
            let a = #[trigger] p[i];
            let b = p[i + 1];
            gap(a.0, b.0) <= 1 && gap(a.1, b.1) <= 1
        } by {
            if i > 0 {
                assert(p[i] == rest[i - 1]);
                assert(p[i + 1] == rest[i]);
            } else {
                assert(p[1] == rest[0]);
            }
        }
    }
}

/// Holding both keys of an axis cancels out; otherwise the speed is the base
/// step, or twice it once boosted, toward the active key.
pub proof fn law_opposite_keys_cancel(
    negative: DirectionState,
    positive: DirectionState,
    now: u64,
    enhanced: bool,
    base_step: i16,
)
    requires
        base_step >= 0,
    ensures
        spec_is_active(negative, now, enhanced) && spec_is_active(positive, now, enhanced)
            ==> spec_velocity(negative, positive, now, enhanced, base_step) == 0,
        !spec_is_active(negative, now, enhanced) && !spec_is_active(positive, now, enhanced)
            ==> spec_velocity(negative, positive, now, enhanced, base_step) == 0,
        ({
            let v = spec_velocity(negative, positive, now, enhanced, base_step);
            v == 0 || v == base_step || v == -base_step || v == 2 * base_step || v == -2 * base_step
        }),
{
}

/// A released key is not held, and a key that is pressed again keeps the
/// start of its hold.
pub proof fn law_release_and_repress(d: DirectionState, t1: u64, t2: u64, now: u64, enhanced: bool)
    ensures
        !spec_is_active(idle(), now, enhanced),
        !spec_boosted(idle(), now, enhanced),
        spec_press(spec_press(d, t1), t2).held_since == spec_press(d, t1).held_since,
        spec_press(d, t1).last_seen == Some(t1),
        enhanced ==> spec_is_active(spec_press(d, t1), now, enhanced),
{
}

/// The lessons only move forward: no step of the tutorial returns to an
/// earlier lesson, and the shown hit count never exceeds the goal once it is
/// within it.
pub proof fn law_tutorial_moves_forward(
    t: TutorialState,
    m: MovementTutorial,
    hit_count: u8,
    enraged: bool,
    dx: int,
    dy: int,
)
    ensures
        stage_rank(spec_mark(t, m).stage) >= stage_rank(t.stage),
        stage_rank(spec_record_hit(t, hit_count).stage) == stage_rank(t.stage),
        stage_rank(spec_observe(t, enraged, dx, dy).stage) >= stage_rank(t.stage),
        t.bird_hits <= ENRAGE_HIT_COUNT ==> spec_record_hit(t, hit_count).bird_hits <= ENRAGE_HIT_COUNT,
{
}

/// The about box's animation stays within its steps, and asking it to close
/// never changes how far open it is drawn.
pub proof fn law_menu_steps_stay_in_range(m: MenuState)
    requires
        m.wf(),
    ensures
        m.spec_open().wf(),
        m.spec_close().wf(),
        m.spec_advance().wf(),
        m.spec_progress() <= MENU_ANIMATION_STEPS,
        m.spec_close().spec_progress() == m.spec_progress(),
{
}

/// A closed about box that is asked to open is fully open after seven
/// animation steps; a fully open one that is asked to close is closed after
/// six.
pub proof fn law_menu_opens_and_closes()
    ensures
        MenuState::Closed.spec_open().spec_advance().spec_advance().spec_advance().spec_advance()
            .spec_advance().spec_advance().spec_advance() == MenuState::Open,
        MenuState::Open.spec_close().spec_advance().spec_advance().spec_advance().spec_advance()
            .spec_advance().spec_advance() == MenuState::Closed,
{
}

/// A hit that brings a calm emblem to the enrage count enrages it and starts
/// its full grace period; an enraged emblem stays enraged.
pub proof fn law_enough_hits_enrage(e: EmblemState)
    ensures
        !e.enraged && spec_register_hit(e).hit_count >= ENRAGE_HIT_COUNT ==> spec_register_hit(e).enraged
            && spec_register_hit(e).grace_ticks == EMBLEM_GRACE_TICKS,
        e.enraged ==> spec_register_hit(e).enraged && spec_register_hit(e).grace_ticks == e.grace_ticks,
{
}

/// After a reset the emblem is calm, and it is spiralling home exactly when it
/// is away from its resting place.
pub proof fn law_reset_calms(e: EmblemState)
    ensures
        !spec_reset(e).enraged,
        spec_reset(e).hit_count == 0,
        spec_reset(e).grace_ticks == 0,
        (spec_reset(e).reset_motion is Some) == (e.offset_x != 0 || e.offset_y != 0),
{
}

/// Outside its spiral home, one tick (that can be computed) moves the emblem
/// at most two columns and one row, and during the grace period it does not
/// move at all.
pub proof fn law_chase_step_is_bounded(
    e: EmblemState,
    area: Rect,
    cursor_x: u16,
    cursor_y: u16,
    progress: ResetProgress,
)
    requires
        e.reset_motion is None,
        emblem_tick_fits(e, area, cursor_x, cursor_y, progress),
    ensures
        ({
            let r = spec_emblem_tick(e, area, cursor_x, cursor_y, progress).0;
            &&& -EMBLEM_CHASE_HORIZONTAL_STEP <= r.offset_x - e.offset_x <= EMBLEM_CHASE_HORIZONTAL_STEP
            &&& -EMBLEM_CHASE_VERTICAL_STEP <= r.offset_y - e.offset_y <= EMBLEM_CHASE_VERTICAL_STEP
            &&& e.enraged && e.grace_ticks > 0 ==> r.offset_x == e.offset_x && r.offset_y == e.offset_y
                && r.grace_ticks == e.grace_ticks - 1
        }),
{
}

/// The cell a recentering cursor aims its middle at lies on the part of the
/// emblem that reacts to Enter, wherever the emblem is away from the top and
/// left edges.
pub proof fn law_emblem_center_is_clickable(stage: Rect, offset_x: int, offset_y: int)
    requires
        clickable_fits(stage, offset_x, offset_y),
        spec_clickable(stage, offset_x, offset_y).x >= 0,
        spec_clickable(stage, offset_x, offset_y).y >= 0,
        spec_clickable(stage, offset_x, offset_y).x + 8 <= i16::MAX,
        spec_clickable(stage, offset_x, offset_y).y + 3 <= i16::MAX,
    ensures
        ({
            let c = spec_clickable_center(stage, offset_x, offset_y);
            spec_contains(spec_clickable(stage, offset_x, offset_y), c.0 as int, c.1 as int)
        }),
{
}

/// `q` (or Escape) ends the game exactly when the about box is closed; when it
/// is shown, it is asked to close instead.
pub proof fn law_quit_only_when_menu_closed(a: AppView, t: Timers, now: u64, area: Rect)
    ensures
        (spec_handle_key(a, t, Key::Char('q'), KeyKind::Press, now, area).2 == Flow::Exit) == (a.menu
            is Closed),
        !(a.menu is Closed) ==> spec_handle_key(a, t, Key::Esc, KeyKind::Press, now, area).0.menu
            == a.menu.spec_close(),
{
}


/// In a frame of the emblem over a free cursor, the cursor ends up caught
/// exactly when, after the emblem's step, the emblem is enraged, its grace
/// period is over, and its reactive part overlaps the cursor's box; a caught
/// cursor is held for the full shake and stops recentering. In particular an
/// emblem still in its grace period never catches.
pub proof fn law_catch_needs_a_hunting_emblem(
    a: AppView,
    t: Timers,
    now: u64,
    area: Rect,
    progress: ResetProgress,
)
    requires
        a.caught_state is None,
    ensures
        ({
            let r = spec_emblem_frame(a, t, now, area, progress).0;
            let e = r.emblem_state;
            let cursor_box = Rect::spec_new(r.cursor.x, r.cursor.y, CURSOR_SIZE, CURSOR_SIZE);
            let overlap = spec_intersects(
                spec_clickable(spec_stage_rect(area), e.offset_x as int, e.offset_y as int),
                cursor_box,
            );
            &&& (r.caught_state is Some <==> (e.enraged && e.grace_ticks == 0 && overlap))
            &&& (e.enraged && e.grace_ticks > 0 ==> r.caught_state is None)
            &&& (r.caught_state is Some ==> r.caught_state == Some(
                CaughtState { ticks_left: CAUGHT_SHAKE_TICKS },
            ) && r.cursor.target is None)
        }),
{
}

/// Before a movement frame, a free cursor that is flying to the emblem takes
/// as its target the aim at the middle of the emblem's reactive part where
/// the emblem is now, so it follows the emblem as it moves; a caught cursor,
/// or one not flying to the emblem, is left alone.
pub proof fn law_recentering_follows_the_emblem(a: AppView, area: Rect)
    ensures
        ({
            let r = spec_prepare_movement(a, area);
            let c = spec_clickable_center(
                spec_stage_rect(area),
                a.emblem_state.offset_x as int,
                a.emblem_state.offset_y as int,
            );
            &&& (a.cursor.target is Some && a.caught_state is None) ==> r.cursor.target == Some(
                spec_clamp_target(area, c.0, c.1),
            )
            &&& !(a.cursor.target is Some && a.caught_state is None) ==> r == a
        }),
{
}

/// `c` and `C` are the same key: pressing either gives the same game, the
/// same bookkeeping and the same answer (and can be computed on the same
/// inputs), and both send the cursor toward the middle of the emblem's
/// reactive part. Likewise `e` and `E`.
pub proof fn law_letter_keys_ignore_case(a: AppView, t: Timers, now: u64, area: Rect)
    ensures
        spec_handle_key(a, t, Key::Char('C'), KeyKind::Press, now, area) == spec_handle_key(
            a,
            t,
            Key::Char('c'),
            KeyKind::Press,
            now,
            area,
        ),
        key_fits(a, Key::Char('C'), KeyKind::Press, area) == key_fits(
            a,
            Key::Char('c'),
            KeyKind::Press,
            area,
        ),
        spec_handle_key(a, t, Key::Char('E'), KeyKind::Press, now, area) == spec_handle_key(
            a,
            t,
            Key::Char('e'),
            KeyKind::Press,
            now,
            area,
        ),
        ({
            let c = spec_clickable_center(
                spec_stage_rect(area),
                a.emblem_state.offset_x as int,
                a.emblem_state.offset_y as int,
            );
            spec_handle_key(a, t, Key::Char('c'), KeyKind::Press, now, area).0.cursor.target == Some(
                spec_clamp_target(area, c.0, c.1),
            )
        }),
{
}

/// The last cell of the path from `(x, y)` to a different `(tx, ty)` is next
/// to the end and is not the end; a path of one step is just the start.
proof fn lemma_path_end(x: u16, y: u16, tx: u16, ty: u16)
    requires
        !(x == tx && y == ty),
    ensures
        path_between(x, y, tx, ty).len() > 0,
        gap(path_between(x, y, tx, ty).last().0, tx) <= 1,
        gap(path_between(x, y, tx, ty).last().1, ty) <= 1,
        path_between(x, y, tx, ty).last() != (tx, ty),
        gap(x, tx) <= 1 && gap(y, ty) <= 1 ==> path_between(x, y, tx, ty) == seq![(x, y)],
    decreases gap(x, tx) + gap(y, ty),
{
    let nx = spec_step_toward(x, tx, 1);
    let ny = spec_step_toward(y, ty, 1);
    let p = path_between(x, y, tx, ty);
    let rest = path_between(nx, ny, tx, ty);
    assert(p == seq![(x, y)] + rest);
    if nx == tx && ny == ty {
        assert(rest.len() == 0);
        assert(p =~= seq![(x, y)]);
    } else {
        lemma_path_end(nx, ny, tx, ty);
        assert(p.last() == rest.last());
    }
}

/// A move by the arrow keys shifts each coordinate by its offset, held within
/// the coordinate range, and reports a move exactly when either coordinate
/// changed. A move leaves the trail as it was when nothing changed; otherwise
/// the trail's newest cell is next to (and not on) the new position, and for
/// a move of at most one cell per axis it is the old position.
pub proof fn law_move_reports_any_change(v: CursorView, dx: i16, dy: i16)
    ensures
        ({
            let (r, moved) = spec_move_by(v, dx, dy);
            &&& r.x == clamp_int(v.x + dx, 0, COORD_MAX as int)
            &&& r.y == clamp_int(v.y + dy, 0, COORD_MAX as int)
            &&& moved == (r.x != v.x || r.y != v.y)
            &&& !moved ==> r.trail == v.trail
            &&& moved ==> {
                &&& r.trail.len() > 0
                &&& gap(r.trail.last().0, r.x) <= 1
                &&& gap(r.trail.last().1, r.y) <= 1
                &&& r.trail.last() != (r.x, r.y)
                &&& (gap(r.x, v.x) <= 1 && gap(r.y, v.y) <= 1) ==> r.trail.last() == (v.x, v.y)
            }
        }),
{
    let (r, moved) = spec_move_by(v, dx, dy);
    if moved {
        lemma_path_end(v.x, v.y, r.x, r.y);
        let whole = v.trail + path_between(v.x, v.y, r.x, r.y);
        assert(whole.last() == path_between(v.x, v.y, r.x, r.y).last());
        let kept = keep_last(whole, GHOST_LENGTH as nat);
        if whole.len() > GHOST_LENGTH {
            assert(kept.last() == whole.last());
        }
        assert(r.trail == kept);
    }
}

/// `'['` for a tried key and `'('` otherwise.
pub open spec fn opening_bracket(done: bool) -> char {
    if done { '[' } else { '(' }
}

/// `']'` for a tried key and `')'` otherwise.
pub open spec fn closing_bracket(done: bool) -> char {
    if done { ']' } else { ')' }
}

/// In the movement lesson every arrow is shown with its own mark: square
/// brackets exactly when that arrow was tried, round ones while it is still
/// to do, whatever the other arrows show. The up arrow stands alone on its
/// line; left, down and right follow on the next, in that order.
pub proof fn law_each_arrow_shows_its_own_mark(r: Seq<StyledLine>, m: MovementTutorial)
    requires
        movement_lines_ok(r, m),
    ensures
        r[2].text@.len() == 11,
        r[2].text@[4] == opening_bracket(m.up),
        r[2].text@[5] == '↑',
        r[2].text@[6] == closing_bracket(m.up),
        r[3].text@.len() == 11,
        r[3].text@[0] == opening_bracket(m.left),
        r[3].text@[1] == '←',
        r[3].text@[2] == closing_bracket(m.left),
        r[3].text@[4] == opening_bracket(m.down),
        r[3].text@[5] == '↓',
        r[3].text@[6] == closing_bracket(m.down),
        r[3].text@[8] == opening_bracket(m.right),
        r[3].text@[9] == '→',
        r[3].text@[10] == closing_bracket(m.right),
{
    reveal_strlit("↑");
    reveal_strlit("←");
    reveal_strlit("↓");
    reveal_strlit("→");
    reveal_strlit(" ");
    reveal_strlit("    ");
}

} // verus!
