use vstd::prelude::*;
use crate::chase::{
    EmblemState, ResetProgress, emblem_tick_fits, spec_emblem_tick, spec_register_hit, spec_reset,
};
use crate::cursor::{
    Cursor, CursorRender, CursorView, OrbitPoints, bounds_fit, cursor_render_ok, reach_fits,
    retarget_fits, spec_fit, spec_move_by, spec_recenter, spec_retarget, spec_tick, spec_tick_dirty,
    tick_fits, wrap16, CURSOR_SIZE,
};
use crate::emblem::{
    EmblemScene, center_fits_at, cursor_over_fits, cursor_over_fits_at, emblem_scene_ok,
    lemma_ray_field_fits, origin_fits, origin_fits_at, overlap_fits, overlap_fits_at,
    spec_clickable, spec_clickable_center, spec_contains, spec_intersects, spec_stage_center,
    spec_stage_rect, stage_center_fits, stage_center_fits_at, stage_rect,
};
use crate::geometry::{Rect, clamp_u16, clamp_int, max_int, min_int, sat_sub, COORD_MAX};
use crate::input::{
    Direction, InputMode, MILLISECOND, elapsed, key_of, spec_axis, spec_elapsed, spec_press, with_key,
};
use crate::layout::{
    centered_rect, display_width, inner_box, line_width, spec_centered_box, spec_inner_box,
};
use crate::menu::{MenuState, MENU_ANIMATION_STEPS, about_lines_ok, render_lines};
use crate::text::{StyledLine, TextPlacement, TintedGlyph};
use crate::tutorial::{
    MovementTutorial, TutorialStage, TutorialState, lesson_lines_ok, spec_lesson_title, spec_mark,
    spec_observe, spec_record_hit,
};

verus! {

/// Width of the fully open about box.
pub const MENU_WIDTH: u16 = 34;

/// Height of the fully open about box.
pub const MENU_HEIGHT: u16 = 10;

/// Number of phases the ray pattern drifts through before repeating.
pub const RAY_DRIFT_STEPS: u32 = 17;

/// Time between cursor moves.
pub const MOVEMENT_FRAME_TIME: u64 = 16 * MILLISECOND;

/// Time between emblem moves.
pub const EMBLEM_FRAME_TIME: u64 = 48 * MILLISECOND;

/// Time between animation steps (menu, ray drift, reactions).
pub const ANIMATION_FRAME_TIME: u64 = 120 * MILLISECOND;

/// Emblem ticks the cursor is shaken for after the emblem catches it.
pub const CAUGHT_SHAKE_TICKS: u8 = 8;

/// Animation steps the emblem reacts for after a touch.
pub const REACTION_TICKS: u8 = 8;

/// Width of the tutorial box.
pub const TUTORIAL_BOX_WIDTH: u16 = 32;

/// Height of the tutorial box.
pub const TUTORIAL_BOX_HEIGHT: u16 = 11;

/// The emblem has caught the cursor and is shaking it.
#[derive(Clone, Copy, Debug, PartialEq, Eq, Structural)]
pub struct CaughtState {
    pub ticks_left: u8,
}

/// A key as the game sees it.
#[derive(Clone, Copy, Debug, PartialEq, Eq, Structural)]
pub enum Key {
    Char(char),
    Esc,
    Up,
    Down,
    Left,
    Right,
    Enter,
    Other,
}

/// Whether a key went down, auto-repeated, or came up.
#[derive(Clone, Copy, Debug, PartialEq, Eq, Structural)]
pub enum KeyKind {
    Press,
    Repeat,
    Release,
}

/// What the game wants after a key: go on, or end.
#[derive(Clone, Copy, Debug, PartialEq, Eq, Structural)]
pub enum Flow {
    Continue,
    Exit,
}

/// A step would leave the range of its integer type; the game cannot go on.
#[derive(Clone, Copy, Debug, PartialEq, Eq, Structural)]
pub struct Overflow;

/// Bookkeeping of the main loop: whether the screen needs a redraw and when
/// each kind of frame last ran (nanoseconds on the caller's clock).
#[derive(Clone, Copy, Debug, PartialEq, Eq, Structural)]
pub struct Timers {
    pub dirty: bool,
    pub last_movement: u64,
    pub last_emblem_motion: u64,
    pub last_animation: u64,
}

/// The about box as drawn: where, its heading, and its text (only once fully
/// open).
pub struct MenuScene {
    pub area: Rect,
    pub title: &'static str,
    pub lines: Vec<Vec<TintedGlyph>>,
    /// Where each shown line goes; lines past the box's inside are dropped.
    pub placements: Vec<TextPlacement>,
}

/// The tutorial box as drawn.
pub struct TutorialScene {
    pub area: Rect,
    pub title: &'static str,
    pub lines: Vec<StyledLine>,
    /// Where each shown line goes; lines past the box's inside are dropped.
    pub placements: Vec<TextPlacement>,
}

/// One screenful: the emblem, a title line at the top, a status line at the
/// bottom, the about box and tutorial when shown, and the cursor on top.
pub struct Scene {
    pub emblem: EmblemScene,
    pub title: &'static str,
    pub status: &'static str,
    pub menu: Option<MenuScene>,
    pub tutorial: Option<TutorialScene>,
    pub cursor: CursorRender,
}

/// The whole game.
pub struct App {
    pub title: &'static str,
    pub tick: u32,
    pub menu: MenuState,
    pub input_mode: InputMode,
    pub tutorial: TutorialState,
    pub cursor: Cursor,
    pub emblem_state: EmblemState,
    pub caught_state: Option<CaughtState>,
    pub emblem_reaction: u8,
}

/// The state of an [`App`] as a mathematical value.
pub struct AppView {
    pub title: &'static str,
    pub tick: u32,
    pub menu: MenuState,
    pub input_mode: InputMode,
    pub tutorial: TutorialState,
    pub cursor: CursorView,
    pub emblem_state: EmblemState,
    pub caught_state: Option<CaughtState>,
    pub emblem_reaction: u8,
}

impl View for App {
    type V = AppView;

    open spec fn view(&self) -> AppView {
        AppView {
            title: self.title,
            tick: self.tick,
            menu: self.menu,
            input_mode: self.input_mode,
            tutorial: self.tutorial,
            cursor: self.cursor@,
            emblem_state: self.emblem_state,
            caught_state: self.caught_state,
            emblem_reaction: self.emblem_reaction,
        }
    }
}

/// The rectangle an optional area stands for (empty when absent).
pub open spec fn area_or_empty(area: Option<Rect>) -> Rect {
    match area {
        Some(r) => r,
        None => Rect { x: 0, y: 0, width: 0, height: 0 },
    }
}

/// The arrow a key stands for.
pub open spec fn key_direction(key: Key) -> Option<Direction> {
    match key {
        Key::Up => Some(Direction::Up),
        Key::Down => Some(Direction::Down),
        Key::Left => Some(Direction::Left),
        Key::Right => Some(Direction::Right),
        _ => None,
    }
}

/// `e` or `E`: open the about box.
pub open spec fn is_menu_key(key: Key) -> bool {
    key == Key::Char('e') || key == Key::Char('E')
}

/// `c` or `C`: send the cursor to the emblem.
pub open spec fn is_recenter_key(key: Key) -> bool {
    key == Key::Char('c') || key == Key::Char('C')
}

/// `q` or Escape: close the about box, or quit when it is closed.
pub open spec fn is_quit_key(key: Key) -> bool {
    key == Key::Char('q') || key == Key::Esc
}

/// Handling the key needs the screen area.
pub open spec fn spec_key_needs_area(key: Key, kind: KeyKind) -> bool {
    kind == KeyKind::Press && (is_recenter_key(key) || key == Key::Enter)
}

/// The tutorial after an arrow key was pressed.
pub open spec fn spec_mark_dir(t: TutorialState, d: Direction) -> TutorialState {
    match d {
        Direction::Up => spec_mark(t, MovementTutorial { up: true, ..t.movement }),
        Direction::Down => spec_mark(t, MovementTutorial { down: true, ..t.movement }),
        Direction::Left => spec_mark(t, MovementTutorial { left: true, ..t.movement }),
        Direction::Right => spec_mark(t, MovementTutorial { right: true, ..t.movement }),
    }
}

/// Where the cursor aims its middle when sent to the emblem in `area`.
pub open spec fn emblem_target(a: AppView, area: Rect) -> (u16, u16) {
    spec_clickable_center(
        spec_stage_rect(area),
        a.emblem_state.offset_x as int,
        a.emblem_state.offset_y as int,
    )
}

/// The cursor's middle after it was fitted to `area`.
pub open spec fn fitted_middle(c: CursorView, area: Rect) -> (u16, u16) {
    let f = spec_fit(c, area);
    ((f.x + 1) as u16, (f.y + 1) as u16)
}

/// Handling the key can be computed.
pub open spec fn key_fits(a: AppView, key: Key, kind: KeyKind, area: Rect) -> bool {
    let ox = a.emblem_state.offset_x as int;
    let oy = a.emblem_state.offset_y as int;
    if kind == KeyKind::Press && is_recenter_key(key) {
        crate::emblem::center_fits(spec_stage_rect(area), ox, oy) && reach_fits(area)
    } else if kind == KeyKind::Press && key == Key::Enter {
        let m = fitted_middle(a.cursor, area);
        crate::cursor::center_fits(a.cursor, area) && cursor_over_fits(spec_stage_rect(area), m.0, m.1, ox, oy)
    } else {
        true
    }
}

/// The game after a key, the loop's bookkeeping, and whether to go on.
pub open spec fn spec_handle_key(
    a: AppView,
    t: Timers,
    key: Key,
    kind: KeyKind,
    now: u64,
    area: Rect,
) -> (AppView, Timers, Flow) {
    let redraw = Timers { dirty: true, ..t };
    match kind {
        KeyKind::Press => {
            if is_menu_key(key) {
                (AppView { menu: a.menu.spec_open(), ..a }, redraw, Flow::Continue)
            } else if is_recenter_key(key) {
                let target = emblem_target(a, area);
                let r = spec_recenter(a.cursor, area, target.0, target.1);
                (AppView { cursor: r.0, ..a }, Timers { dirty: t.dirty || r.1, ..t }, Flow::Continue)
            } else if is_quit_key(key) {
                if a.menu is Closed {
                    (a, t, Flow::Exit)
                } else {
                    (AppView { menu: a.menu.spec_close(), ..a }, redraw, Flow::Continue)
                }
            } else if key_direction(key) is Some {
                let d = key_direction(key).unwrap();
                (
                    AppView {
                        tutorial: spec_mark_dir(a.tutorial, d),
                        input_mode: with_key(a.input_mode, d, spec_press(key_of(a.input_mode, d), now)),
                        ..a
                    },
                    redraw,
                    Flow::Continue,
                )
            } else if key == Key::Enter {
                let f = spec_fit(a.cursor, area);
                let m = fitted_middle(a.cursor, area);
                let over = spec_contains(
                    spec_clickable(
                        spec_stage_rect(area),
                        a.emblem_state.offset_x as int,
                        a.emblem_state.offset_y as int,
                    ),
                    wrap16(m.0),
                    wrap16(m.1),
                );
                if over {
                    let e = spec_register_hit(a.emblem_state);
                    (
                        AppView {
                            cursor: f,
                            emblem_state: e,
                            tutorial: spec_record_hit(a.tutorial, e.hit_count),
                            emblem_reaction: REACTION_TICKS,
                            ..a
                        },
                        redraw,
                        Flow::Continue,
                    )
                } else {
                    (AppView { cursor: f, ..a }, t, Flow::Continue)
                }
            } else {
                (a, t, Flow::Continue)
            }
        },
        KeyKind::Repeat => match key_direction(key) {
            Some(d) => (
                AppView {
                    input_mode: with_key(a.input_mode, d, spec_press(key_of(a.input_mode, d), now)),
                    ..a
                },
                t,
                Flow::Continue,
            ),
            None => (a, t, Flow::Continue),
        },
        KeyKind::Release => match key_direction(key) {
            Some(d) => (
                AppView { input_mode: with_key(a.input_mode, d, crate::input::idle()), ..a },
                t,
                Flow::Continue,
            ),
            None => (a, t, Flow::Continue),
        },
    }
}

/// The movement frame has to retarget the cursor at the emblem (and so needs
/// the screen area).
pub open spec fn spec_movement_needs_area(a: AppView) -> bool {
    a.cursor.target is Some && a.caught_state is None
}

/// Retargeting before a movement frame can be computed.
pub open spec fn prepare_fits(a: AppView, area: Rect) -> bool {
    spec_movement_needs_area(a) ==> (crate::emblem::center_fits(
        spec_stage_rect(area),
        a.emblem_state.offset_x as int,
        a.emblem_state.offset_y as int,
    ) && retarget_fits(a.cursor, area))
}

/// The game after the cursor's target followed the emblem.
pub open spec fn spec_prepare_movement(a: AppView, area: Rect) -> AppView {
    if spec_movement_needs_area(a) {
        let target = emblem_target(a, area);
        AppView { cursor: spec_retarget(a.cursor, area, target.0, target.1).0, ..a }
    } else {
        a
    }
}

/// Moving the cursor can be computed: a tick (when no key moves it) fits.
pub open spec fn advance_fits(a: AppView, now: u64, orbit: OrbitPoints) -> bool {
    let v = spec_axis(a.input_mode, now);
    (v.0 == 0 && v.1 == 0) ==> tick_fits(a.cursor, orbit)
}

/// The game after the cursor moved: by the held keys, or else by a tick.
/// Also whether anything changed.
pub open spec fn spec_advance_cursor(a: AppView, now: u64, orbit: OrbitPoints) -> (AppView, bool) {
    let v = spec_axis(a.input_mode, now);
    if v.0 != 0 || v.1 != 0 {
        let m = spec_move_by(a.cursor, v.0 as i16, v.1 as i16);
        (AppView { cursor: m.0, ..a }, m.1)
    } else {
        (AppView { cursor: spec_tick(a.cursor, orbit), ..a }, spec_tick_dirty(a.cursor, orbit))
    }
}

/// The movement frame after retargeting can be computed.
pub open spec fn finish_fits(a: AppView, now: u64, orbit: OrbitPoints) -> bool {
    a.caught_state is None ==> advance_fits(a, now, orbit)
}

/// The game and bookkeeping after the movement frame: a caught cursor stays
/// put (but the screen is redrawn as it shakes), otherwise it moves.
pub open spec fn spec_finish_movement(a: AppView, t: Timers, now: u64, orbit: OrbitPoints) -> (AppView, Timers) {
    if a.caught_state is None {
        let r = spec_advance_cursor(a, now, orbit);
        (r.0, Timers { dirty: t.dirty || r.1, last_movement: now, ..t })
    } else {
        (a, Timers { dirty: true, last_movement: now, ..t })
    }
}

/// The emblem is enraged and past its grace period.
pub open spec fn hunting(e: EmblemState) -> bool {
    e.enraged && !(e.enraged && e.grace_ticks > 0)
}

/// The emblem frame can be computed.
pub open spec fn emblem_frame_fits(a: AppView, area: Rect, progress: ResetProgress) -> bool {
    let f = spec_fit(a.cursor, area);
    let m = fitted_middle(a.cursor, area);
    let f2 = spec_fit(f, area);
    let rect = Rect::spec_new(f2.x, f2.y, CURSOR_SIZE, CURSOR_SIZE);
    let e1 = spec_emblem_tick(a.emblem_state, area, m.0, m.1, progress).0;
    let stage = spec_stage_rect(area);
    &&& crate::cursor::center_fits(a.cursor, area)
    &&& bounds_fit(f, area)
    &&& a.caught_state is None ==> {
        &&& emblem_tick_fits(a.emblem_state, area, m.0, m.1, progress)
        &&& stage_center_fits(stage, e1.offset_x as int, e1.offset_y as int)
        &&& hunting(e1) ==> overlap_fits(stage, rect, e1.offset_x as int, e1.offset_y as int)
    }
}

/// The game and bookkeeping after the emblem frame. A caught cursor is shaken
/// until the emblem lets go and resets; otherwise the emblem takes its step,
/// the tutorial looks at it, and a hunting emblem that reaches the cursor
/// catches it.
pub open spec fn spec_emblem_frame(
    a: AppView,
    t: Timers,
    now: u64,
    area: Rect,
    progress: ResetProgress,
) -> (AppView, Timers) {
    let f = spec_fit(a.cursor, area);
    let m = fitted_middle(a.cursor, area);
    let f2 = spec_fit(f, area);
    let rect = Rect::spec_new(f2.x, f2.y, CURSOR_SIZE, CURSOR_SIZE);
    let stage = spec_stage_rect(area);
    match a.caught_state {
        Some(c) => {
            let left = if c.ticks_left > 0 { (c.ticks_left - 1) as u8 } else { 0u8 };
            if left == 0 {
                (
                    AppView {
                        cursor: f2,
                        caught_state: None,
                        emblem_state: spec_reset(a.emblem_state),
                        emblem_reaction: 0,
                        ..a
                    },
                    Timers { dirty: true, last_emblem_motion: now, ..t },
                )
            } else {
                (
                    AppView { cursor: f2, caught_state: Some(CaughtState { ticks_left: left }), ..a },
                    Timers { dirty: true, last_emblem_motion: now, ..t },
                )
            }
        },
        None => {
            let r = spec_emblem_tick(a.emblem_state, area, m.0, m.1, progress);
            let e1 = r.0;
            let center = spec_stage_center(stage, e1.offset_x as int, e1.offset_y as int);
            let tutorial = spec_observe(a.tutorial, e1.enraged, m.0 - center.0, m.1 - center.1);
            let caught = hunting(e1) && spec_intersects(
                spec_clickable(stage, e1.offset_x as int, e1.offset_y as int),
                rect,
            );
            if caught {
                (
                    AppView {
                        cursor: CursorView { target: None, vortex: None, ..f2 },
                        emblem_state: e1,
                        tutorial,
                        caught_state: Some(CaughtState { ticks_left: CAUGHT_SHAKE_TICKS }),
                        ..a
                    },
                    Timers { dirty: true, last_emblem_motion: now, ..t },
                )
            } else {
                (
                    AppView { cursor: f2, emblem_state: e1, tutorial, ..a },
                    Timers { dirty: t.dirty || r.1, last_emblem_motion: now, ..t },
                )
            }
        },
    }
}

/// The game and bookkeeping after an animation step: the rays drift, the
/// about box moves one step, a reaction fades by one step.
pub open spec fn spec_animation_frame(a: AppView, t: Timers, now: u64) -> (AppView, Timers) {
    (
        AppView {
            tick: if a.tick == u32::MAX { 0 } else { (a.tick + 1) as u32 },
            menu: a.menu.spec_advance(),
            emblem_reaction: if a.emblem_reaction > 0 { (a.emblem_reaction - 1) as u8 } else { 0 },
            ..a
        },
        Timers { dirty: true, last_animation: now, ..t },
    )
}

/// `full` scaled by the about box's animation progress, at least 1.
pub open spec fn spec_scaled_dimension(full: u16, progress: u16) -> u16 {
    max_int(min_int(full * progress, COORD_MAX as int) / MENU_ANIMATION_STEPS as int, 1) as u16
}

/// Phase of the drifting rays.
pub open spec fn spec_pulse_phase(a: AppView) -> u32 {
    (a.tick % RAY_DRIFT_STEPS) as u32
}

/// How far the caught cursor is shaken at this step.
pub open spec fn spec_shake(a: AppView) -> (i16, i16) {
    match a.caught_state {
        Some(c) => {
            let k = c.ticks_left % 6;
            if k == 0 {
                (1i16, 0i16)
            } else if k == 1 {
                (-1i16, 0i16)
            } else if k == 2 {
                (0i16, 1i16)
            } else if k == 3 {
                (0i16, -1i16)
            } else if k == 4 {
                (1i16, 1i16)
            } else {
                (-1i16, -1i16)
            }
        },
        None => (0i16, 0i16),
    }
}

/// The status line: what the player can do, or what the emblem is up to.
pub open spec fn spec_status(a: AppView) -> Seq<char> {
    if !(a.menu is Closed) {
        "Arrows move cursor • c recenters • q closes menu"@
    } else if a.caught_state is Some {
        "The emblem caught you, shook you, and will reset"@
    } else if a.emblem_state.enraged && a.emblem_state.grace_ticks > 0 {
        "The emblem is waking up. Move."@
    } else if a.emblem_state.reset_motion is Some {
        "The emblem is spiraling back into place"@
    } else if a.emblem_state.enraged {
        "The emblem is enraged and stalking you"@
    } else if a.emblem_reaction > 0 {
        "Enter on emblem awakened it"@
    } else {
        "E opens menu • C recenters • Enter touches emblem • q exits"@
    }
}

/// Where the about box is drawn at animation step `progress`.
pub open spec fn spec_menu_area(area: Rect, progress: u16) -> Rect {
    spec_centered_box(
        area,
        spec_scaled_dimension(MENU_WIDTH, progress),
        spec_scaled_dimension(MENU_HEIGHT, progress),
    )
}

/// How many rows of a box's inside `inner` can take a line of text, counting
/// from its top: rows at or past its bottom (or past the coordinate range)
/// take none.
pub open spec fn rows_shown(inner: Rect) -> int {
    min_int(inner.y + inner.height, COORD_MAX as int) - inner.y
}

/// `ps` places `n` lines of the about text in the box's inside `inner`: line
/// `i` on row `i` of it, from its left edge, cut at its width; lines that do
/// not fit are dropped.
pub open spec fn menu_placements_ok(ps: Seq<TextPlacement>, n: int, inner: Rect) -> bool {
    &&& ps.len() == min_int(n, rows_shown(inner))
    &&& forall|i: int|
        0 <= i < ps.len() ==> #[trigger] ps[i] == (TextPlacement {
            x: inner.x,
            y: (inner.y + i) as u16,
            width: inner.width,
        })
}

/// `ps` places the tutorial's `lines` in the box's inside `inner`: line `i`
/// on row `i` of it, centred by its display width, cut at the inside's
/// width; lines that do not fit are dropped.
pub open spec fn tutorial_placements_ok(ps: Seq<TextPlacement>, lines: Seq<StyledLine>, inner: Rect) -> bool {
    &&& ps.len() == min_int(lines.len() as int, rows_shown(inner))
    &&& forall|i: int|
        0 <= i < ps.len() ==> #[trigger] ps[i] == (TextPlacement {
            x: (inner.x + sat_sub(inner.width as int, line_width(lines[i].text@) as u16 as int) / 2) as u16,
            y: (inner.y + i) as u16,
            width: inner.width,
        })
}

/// Places `n` lines of the about text in the box's inside `inner`.
fn place_menu_lines(inner: Rect, n: usize) -> (r: Vec<TextPlacement>)
    ensures
        menu_placements_ok(r@, n as int, inner),
{
    let bottom = inner.y.saturating_add(inner.height);
    let shown = (bottom - inner.y) as usize;
    let mut placements: Vec<TextPlacement> = Vec::new();
    let mut index: usize = 0;
    while index < n && index < shown
        invariant
            shown == rows_shown(inner),
            index <= n,
            index <= shown,
            placements@.len() == index,
            forall|i: int|
                0 <= i < index ==> #[trigger] placements@[i] == (TextPlacement {
                    x: inner.x,
                    y: (inner.y + i) as u16,
                    width: inner.width,
                }),
        decreases n - index,
    {
        placements.push(TextPlacement { x: inner.x, y: inner.y + index as u16, width: inner.width });
        index = index + 1;
    }
    placements
}

/// Places the tutorial's `lines` in the box's inside `inner`, each centred
/// by its display width.
fn place_tutorial_lines(inner: Rect, lines: &Vec<StyledLine>) -> (r: Vec<TextPlacement>)
    requires
        inner.x + inner.width <= COORD_MAX,
    ensures
        tutorial_placements_ok(r@, lines@, inner),
{
    let bottom = inner.y.saturating_add(inner.height);
    let shown = (bottom - inner.y) as usize;
    let mut placements: Vec<TextPlacement> = Vec::new();
    let mut index: usize = 0;
    while index < lines.len() && index < shown
        invariant
            shown == rows_shown(inner),
            inner.x + inner.width <= COORD_MAX,
            index <= lines@.len(),
            index <= shown,
            placements@.len() == index,
            forall|i: int|
                0 <= i < index ==> #[trigger] placements@[i] == (TextPlacement {
                    x: (inner.x + sat_sub(inner.width as int, line_width(lines@[i].text@) as u16 as int) / 2) as u16,
                    y: (inner.y + i) as u16,
                    width: inner.width,
                }),
        decreases lines@.len() - index,
    {
        let line_width = display_width(lines[index].text.as_str()) as u16;
        let x = inner.x + inner.width.saturating_sub(line_width) / 2;
        placements.push(TextPlacement { x, y: inner.y + index as u16, width: inner.width });
        index = index + 1;
    }
    placements
}

/// `m` is the about box of `a` in `area`: absent while closed or smaller than
/// two cells either way; its heading and text only once fully open.
pub open spec fn menu_scene_ok(m: Option<MenuScene>, a: AppView, area: Rect) -> bool {
    let p = a.menu.spec_progress();
    let r = spec_menu_area(area, p);
    if a.menu is Closed || r.width < 2 || r.height < 2 {
        m is None
    } else {
        match m {
            Some(s) => s.area == r && if p == MENU_ANIMATION_STEPS {
                &&& s.title@ == "About"@
                &&& about_lines_ok(s.lines@)
                &&& menu_placements_ok(s.placements@, s.lines@.len() as int, spec_inner_box(r))
            } else {
                s.title@ == ""@ && s.lines@.len() == 0 && s.placements@.len() == 0
            },
            None => false,
        }
    }
}

/// Where the tutorial box goes: right of the cursor when it fits there (and
/// the about box is closed), otherwise left of it; a little above the
/// cursor, below the title line and above the status line.
pub open spec fn spec_tutorial_box(area: Rect, cursor: Rect, menu_visible: bool) -> Rect {
    let max_x = area.x + sat_sub(area.width as int, TUTORIAL_BOX_WIDTH as int);
    let right_x = clamp_int(min_int(cursor.x + 5, COORD_MAX as int), area.x as int, max_x);
    let left_x = clamp_int(
        sat_sub(cursor.x as int, TUTORIAL_BOX_WIDTH + 2),
        area.x as int,
        max_x,
    );
    let x = if menu_visible {
        left_x
    } else if right_x + TUTORIAL_BOX_WIDTH <= area.x + area.width {
        right_x
    } else {
        left_x
    };
    let max_y = area.y + sat_sub(area.height as int, TUTORIAL_BOX_HEIGHT + 1);
    let y = clamp_int(sat_sub(cursor.y as int, 2), area.y + 1, max_int(max_y, area.y + 1));
    Rect::spec_new(x as u16, y as u16, TUTORIAL_BOX_WIDTH, TUTORIAL_BOX_HEIGHT)
}

/// The placement of the tutorial box can be computed.
pub open spec fn tutorial_box_fits(area: Rect, cursor: Rect) -> bool {
    let max_x = area.x + sat_sub(area.width as int, TUTORIAL_BOX_WIDTH as int);
    let right_x = clamp_int(min_int(cursor.x + 5, COORD_MAX as int), area.x as int, max_x);
    &&& max_x <= COORD_MAX
    &&& right_x + TUTORIAL_BOX_WIDTH <= COORD_MAX
    &&& area.x + area.width <= COORD_MAX
    &&& area.y + sat_sub(area.height as int, TUTORIAL_BOX_HEIGHT + 1) <= COORD_MAX
    &&& area.y + 1 <= COORD_MAX
}

/// The cursor after a draw: fitted once for the tutorial box (while it is
/// shown) and once for drawing.
pub open spec fn spec_draw_cursor(a: AppView, area: Rect) -> CursorView {
    if a.tutorial.stage == TutorialStage::Done {
        spec_fit(a.cursor, area)
    } else {
        spec_fit(spec_fit(a.cursor, area), area)
    }
}

/// A draw can be computed.
pub open spec fn draw_fits(a: AppView, area: Rect) -> bool {
    let f = spec_fit(a.cursor, area);
    &&& origin_fits(spec_stage_rect(area), a.emblem_state.offset_x as int, a.emblem_state.offset_y as int)
    &&& reach_fits(area)
    &&& a.tutorial.stage != TutorialStage::Done ==> tutorial_box_fits(
        area,
        Rect::spec_new(f.x, f.y, CURSOR_SIZE, CURSOR_SIZE),
    )
}

/// `t` is the tutorial box of `a` in `area`: absent once all lessons are
/// done.
pub open spec fn tutorial_scene_ok(t: Option<TutorialScene>, a: AppView, area: Rect) -> bool {
    let f = spec_fit(a.cursor, area);
    if a.tutorial.stage == TutorialStage::Done {
        t is None
    } else {
        match t {
            Some(s) => {
                &&& s.area == spec_tutorial_box(
                    area,
                    Rect::spec_new(f.x, f.y, CURSOR_SIZE, CURSOR_SIZE),
                    !(a.menu is Closed),
                )
                &&& s.title@ == spec_lesson_title(a.tutorial.stage)
                &&& lesson_lines_ok(s.lines@, a.tutorial)
                &&& tutorial_placements_ok(s.placements@, s.lines@, spec_inner_box(s.area))
            },
            None => false,
        }
    }
}

/// `f` scaled by the about box's animation progress, at least 1.
pub fn scaled_dimension(full: u16, progress: u16) -> (r: u16)
    ensures
        r == spec_scaled_dimension(full, progress),
{
    assert(full * progress <= 0xffff * 0xffff) by (nonlinear_arith)
        requires
            full <= 0xffff,
            progress <= 0xffff,
    ;
    let product = full as u32 * progress as u32;
    let capped: u16 = if product > COORD_MAX as u32 { COORD_MAX } else { product as u16 };
    let size = capped / MENU_ANIMATION_STEPS;
    if size > 1 {
        size
    } else {
        1
    }
}

/// Where the tutorial box goes beside the cursor rectangle `cursor`.
pub fn tutorial_box_rect(area: Rect, cursor: Rect, menu_visible: bool) -> (r: Rect)
    requires
        tutorial_box_fits(area, cursor),
    ensures
        r == spec_tutorial_box(area, cursor, menu_visible),
{
    let preferred_right_x = cursor.x.saturating_add(5);
    let max_x = area.x + area.width.saturating_sub(TUTORIAL_BOX_WIDTH);
    let min_x = area.x;
    let right_x = clamp_u16(preferred_right_x, min_x, max_x);

    let left_x = clamp_u16(cursor.x.saturating_sub(TUTORIAL_BOX_WIDTH.saturating_add(2)), min_x, max_x);

    let mut x = if right_x + TUTORIAL_BOX_WIDTH <= area.x + area.width {
        right_x
    } else {
        left_x
    };

    if menu_visible {
        x = left_x;
    }

    let preferred_y = cursor.y.saturating_sub(2);
    let max_y = area.y + area.height.saturating_sub(TUTORIAL_BOX_HEIGHT + 1);
    let lowest = area.y + 1;
    let y = clamp_u16(preferred_y, lowest, if max_y > lowest { max_y } else { lowest });

    Rect::new(x, y, TUTORIAL_BOX_WIDTH, TUTORIAL_BOX_HEIGHT)
}

/// Whether [`tutorial_box_rect`] can be computed.
pub fn tutorial_box_fits_at(area: Rect, cursor: Rect) -> (r: bool)
    ensures
        r == tutorial_box_fits(area, cursor),
{
    let max_x = area.x as u32 + area.width.saturating_sub(TUTORIAL_BOX_WIDTH) as u32;
    if max_x > COORD_MAX as u32 {
        return false;
    }
    let right_x = clamp_u16(cursor.x.saturating_add(5), area.x, max_x as u16);
    right_x as u32 + TUTORIAL_BOX_WIDTH as u32 <= COORD_MAX as u32 && area.x as u32 + area.width as u32
        <= COORD_MAX as u32 && area.y as u32 + area.height.saturating_sub(TUTORIAL_BOX_HEIGHT + 1) as u32
        <= COORD_MAX as u32 && area.y < COORD_MAX
}

impl App {
    /// A fresh game: nothing learned, the emblem at rest, the cursor not yet
    /// placed, keys read by press and release when `enhanced_input`.
    pub fn new(enhanced_input: bool) -> (r: App)
        ensures
            r@.title@ == ""@,
            r@.tick == 0,
            r@.menu == MenuState::Closed,
            r@.input_mode == crate::input::initial_mode(enhanced_input),
            r@.tutorial == crate::tutorial::initial_tutorial(),
            !r@.cursor.initialized && r@.cursor.target is None && r@.cursor.vortex is None
                && r@.cursor.trail.len() == 0 && r@.cursor.x == 0 && r@.cursor.y == 0,
            r@.emblem_state == crate::chase::resting_emblem(),
            r@.caught_state is None,
            r@.emblem_reaction == 0,
    {
        App {
            title: "",
            tick: 0,
            menu: MenuState::Closed,
            input_mode: InputMode::new(enhanced_input),
            tutorial: TutorialState::new(),
            cursor: Cursor::default(),
            emblem_state: EmblemState::new(),
            caught_state: None,
            emblem_reaction: 0,
        }
    }
}

impl App {
    /// Starts the main loop at `now`: names the game if it has no title yet
    /// and asks for a first drawing.
    pub fn start_run(&mut self, now: u64) -> (t: Timers)
        ensures
            final(self)@ == (AppView {
                title: if old(self)@.title@.len() == 0 { "Pusillanipous" } else { old(self)@.title },
                ..old(self)@
            }),
            t == (Timers { dirty: true, last_movement: now, last_emblem_motion: now, last_animation: now }),
    {
        if self.title.is_empty() {
            self.title = "Pusillanipous";
        }
        Timers { dirty: true, last_movement: now, last_emblem_motion: now, last_animation: now }
    }

    /// Whether the about box's animation step is within its range.
    pub fn menu_wf(&self) -> (r: bool)
        ensures
            r == self.menu.wf(),
    {
        match self.menu {
            MenuState::Opening(step) => step <= MENU_ANIMATION_STEPS,
            MenuState::Closing(step) => step <= MENU_ANIMATION_STEPS,
            _ => true,
        }
    }

    /// Whether any part of the about box is shown.
    pub fn menu_visible(&self) -> (r: bool)
        ensures
            r == !(self.menu is Closed),
    {
        self.menu.visible()
    }

    /// Asks the about box to open.
    pub fn open_menu(&mut self)
        requires
            old(self).menu.can_open(),
        ensures
            final(self)@ == (AppView { menu: old(self).menu.spec_open(), ..old(self)@ }),
            old(self).menu.wf() ==> final(self).menu.wf(),
    {
        self.menu.open();
    }

    /// Asks the about box to close.
    pub fn close_menu(&mut self)
        ensures
            final(self)@ == (AppView { menu: old(self).menu.spec_close(), ..old(self)@ }),
            old(self).menu.wf() ==> final(self).menu.wf(),
    {
        self.menu.close();
    }

    /// Moves the about box's animation on by one step.
    pub fn advance_menu_animation(&mut self)
        ensures
            final(self)@ == (AppView { menu: old(self).menu.spec_advance(), ..old(self)@ }),
            old(self).menu.wf() ==> final(self).menu.wf(),
    {
        self.menu.advance();
    }

    /// How far open the about box is drawn.
    pub fn menu_progress(&self) -> (r: u16)
        ensures
            r == self.menu.spec_progress(),
    {
        self.menu.progress()
    }

    /// Phase of the drifting rays.
    pub fn pulse_phase(&self) -> (r: u32)
        ensures
            r == spec_pulse_phase(self@),
    {
        self.tick % RAY_DRIFT_STEPS
    }

    /// How far the caught cursor is shaken at this step.
    pub fn cursor_shake_offset(&self) -> (r: (i16, i16))
        ensures
            r == spec_shake(self@),
    {
        match self.caught_state {
            Some(CaughtState { ticks_left }) => match ticks_left % 6 {
                0 => (1, 0),
                1 => (-1, 0),
                2 => (0, 1),
                3 => (0, -1),
                4 => (1, 1),
                _ => (-1, -1),
            },
            None => (0, 0),
        }
    }

    /// Whether handling `key` needs the screen area.
    pub fn key_needs_area(key: Key, kind: KeyKind) -> (r: bool)
        ensures
            r == spec_key_needs_area(key, kind),
    {
        match kind {
            KeyKind::Press => match key {
                Key::Char(ch) => ch == 'c' || ch == 'C',
                Key::Enter => true,
                _ => false,
            },
            _ => false,
        }
    }

    /// Handles a key at `now`. `e` opens the about box; `c` sends the cursor
    /// spiralling to the emblem; `q` or Escape closes the box, or ends the
    /// game when it is closed; arrows count for the tutorial and steer the
    /// cursor; Enter touches the emblem when the cursor's middle is on it.
    /// `area` is the screen, needed by `c` and Enter. Fails exactly where a
    /// step would leave its integer range.
    pub fn handle_key(
        &mut self,
        timers: &mut Timers,
        key: Key,
        kind: KeyKind,
        now: u64,
        area: Option<Rect>,
    ) -> (r: Result<Flow, Overflow>)
        requires
            kind == KeyKind::Press && is_menu_key(key) ==> old(self).menu.can_open(),
            spec_key_needs_area(key, kind) ==> area is Some,
        ensures
            old(self).menu.wf() ==> final(self).menu.wf(),
            r is Err <==> !key_fits(old(self)@, key, kind, area_or_empty(area)),
            r is Ok ==> (final(self)@, *final(timers), r->Ok_0) == spec_handle_key(
                old(self)@,
                *old(timers),
                key,
                kind,
                now,
                area_or_empty(area),
            ),
    {
        match kind {
            KeyKind::Press => {
                if key == Key::Char('e') || key == Key::Char('E') {
                    self.open_menu();
                    timers.dirty = true;
                    Ok(Flow::Continue)
                } else if key == Key::Char('c') || key == Key::Char('C') {
                    let area = area.unwrap();
                    let stage = stage_rect(area);
                    if !center_fits_at(stage, self.emblem_state.offset_x, self.emblem_state.offset_y)
                        || !Cursor::area_fits(area) {
                        return Err(Overflow);
                    }
                    let (x, y) = crate::emblem::center(
                        area,
                        self.emblem_state.offset_x,
                        self.emblem_state.offset_y,
                    );
                    let changed = self.cursor.recenter_on(area, x, y);
                    timers.dirty = timers.dirty || changed;
                    Ok(Flow::Continue)
                } else if key == Key::Char('q') || key == Key::Esc {
                    match self.menu {
                        MenuState::Closed => Ok(Flow::Exit),
                        _ => {
                            self.close_menu();
                            timers.dirty = true;
                            Ok(Flow::Continue)
                        },
                    }
                } else if key == Key::Enter {
                    let area = area.unwrap();
                    if !self.cursor.center_fits(area) {
                        return Err(Overflow);
                    }
                    let (x, y) = self.cursor.center(area);
                    let stage = stage_rect(area);
                    if !cursor_over_fits_at(
                        stage,
                        x,
                        y,
                        self.emblem_state.offset_x,
                        self.emblem_state.offset_y,
                    ) {
                        return Err(Overflow);
                    }
                    if crate::emblem::is_cursor_over(
                        area,
                        x,
                        y,
                        self.emblem_state.offset_x,
                        self.emblem_state.offset_y,
                    ) {
                        self.emblem_state.register_hit();
                        self.tutorial.record_emblem_hit(self.emblem_state.hit_count);
                        self.emblem_reaction = REACTION_TICKS;
                        timers.dirty = true;
                    }
                    Ok(Flow::Continue)
                } else {
                    match key {
                        Key::Up => {
                            self.tutorial.mark_up();
                            self.input_mode.press_up(now);
                            timers.dirty = true;
                        },
                        Key::Down => {
                            self.tutorial.mark_down();
                            self.input_mode.press_down(now);
                            timers.dirty = true;
                        },
                        Key::Left => {
                            self.tutorial.mark_left();
                            self.input_mode.press_left(now);
                            timers.dirty = true;
                        },
                        Key::Right => {
                            self.tutorial.mark_right();
                            self.input_mode.press_right(now);
                            timers.dirty = true;
                        },
                        _ => {},
                    }
                    Ok(Flow::Continue)
                }
            },
            KeyKind::Repeat => {
                match key {
                    Key::Up => self.input_mode.press_up(now),
                    Key::Down => self.input_mode.press_down(now),
                    Key::Left => self.input_mode.press_left(now),
                    Key::Right => self.input_mode.press_right(now),
                    _ => {},
                }
                Ok(Flow::Continue)
            },
            KeyKind::Release => {
                match key {
                    Key::Up => self.input_mode.release_up(),
                    Key::Down => self.input_mode.release_down(),
                    Key::Left => self.input_mode.release_left(),
                    Key::Right => self.input_mode.release_right(),
                    _ => {},
                }
                Ok(Flow::Continue)
            },
        }
    }

    /// Whether the cursor is due to move at `now`.
    pub fn movement_due(&self, timers: &Timers, now: u64) -> (r: bool)
        ensures
            r == (spec_elapsed(now, timers.last_movement) >= MOVEMENT_FRAME_TIME),
    {
        elapsed(now, timers.last_movement) >= MOVEMENT_FRAME_TIME
    }

    /// Whether the emblem is due to move at `now`.
    pub fn emblem_due(&self, timers: &Timers, now: u64) -> (r: bool)
        ensures
            r == (spec_elapsed(now, timers.last_emblem_motion) >= EMBLEM_FRAME_TIME),
    {
        elapsed(now, timers.last_emblem_motion) >= EMBLEM_FRAME_TIME
    }

    /// Whether the animation is due to step at `now`.
    pub fn animation_due(&self, timers: &Timers, now: u64) -> (r: bool)
        ensures
            r == (spec_elapsed(now, timers.last_animation) >= ANIMATION_FRAME_TIME),
    {
        elapsed(now, timers.last_animation) >= ANIMATION_FRAME_TIME
    }

    /// Whether the movement frame needs the screen area: a free cursor that is
    /// recentering keeps aiming at the emblem.
    pub fn movement_needs_area(&self) -> (r: bool)
        ensures
            r == spec_movement_needs_area(self@),
    {
        self.cursor.is_recentering() && self.caught_state.is_none()
    }

    /// First part of a movement frame: a free recentering cursor follows the
    /// emblem in `area`. Fails exactly where a step would leave its integer
    /// range.
    pub fn prepare_movement(&mut self, area: Option<Rect>) -> (r: Result<(), Overflow>)
        requires
            spec_movement_needs_area(old(self)@) ==> area is Some,
        ensures
            final(self).menu == old(self).menu,
            r is Err <==> !prepare_fits(old(self)@, area_or_empty(area)),
            r is Ok ==> final(self)@ == spec_prepare_movement(old(self)@, area_or_empty(area)),
    {
        if self.cursor.is_recentering() && self.caught_state.is_none() {
            let area = area.unwrap();
            let stage = stage_rect(area);
            if !center_fits_at(stage, self.emblem_state.offset_x, self.emblem_state.offset_y)
                || !self.cursor.retarget_fits(area) {
                return Err(Overflow);
            }
            let (x, y) = crate::emblem::center(area, self.emblem_state.offset_x, self.emblem_state.offset_y);
            self.cursor.retarget_recenter(area, x, y);
        }
        Ok(())
    }

    /// Moves the cursor at `now`: by the held arrow keys, or, when none moves
    /// it, by a tick aiming at `orbit`. Returns whether anything changed.
    pub fn advance_cursor(&mut self, now: u64, orbit: OrbitPoints) -> (r: Result<bool, Overflow>)
        ensures
            final(self).menu == old(self).menu,
            r is Err <==> !advance_fits(old(self)@, now, orbit),
            r is Ok ==> (final(self)@, r->Ok_0) == spec_advance_cursor(old(self)@, now, orbit),
    {
        let (dx, dy) = self.input_mode.axis(now);

        if dx != 0 || dy != 0 {
            Ok(self.cursor.move_by(dx, dy))
        } else {
            if !self.cursor.tick_fits(orbit) {
                return Err(Overflow);
            }
            Ok(self.cursor.tick(orbit))
        }
    }

    /// Second part of a movement frame at `now`: a free cursor moves (see
    /// [`App::advance_cursor`]), a caught one stays but is redrawn shaking.
    pub fn finish_movement(&mut self, timers: &mut Timers, now: u64, orbit: OrbitPoints) -> (r: Result<(), Overflow>)
        ensures
            final(self).menu == old(self).menu,
            r is Err <==> !finish_fits(old(self)@, now, orbit),
            r is Ok ==> (final(self)@, *final(timers)) == spec_finish_movement(old(self)@, *old(timers), now, orbit),
    {
        if self.caught_state.is_none() {
            let changed = self.advance_cursor(now, orbit)?;
            timers.dirty = timers.dirty || changed;
        } else {
            timers.dirty = true;
        }
        timers.last_movement = now;
        Ok(())
    }

    /// The emblem frame at `now` in `area`; `progress` is where the emblem's
    /// spiral home leads next when it is resetting. Fails exactly where a
    /// step would leave its integer range.
    pub fn emblem_frame(&mut self, timers: &mut Timers, now: u64, area: Rect, progress: ResetProgress) -> (r: Result<(), Overflow>)
        ensures
            final(self).menu == old(self).menu,
            r is Err <==> !emblem_frame_fits(old(self)@, area, progress),
            r is Ok ==> (final(self)@, *final(timers)) == spec_emblem_frame(old(self)@, *old(timers), now, area, progress),
    {
        if !self.cursor.center_fits(area) {
            return Err(Overflow);
        }
        let (cursor_x, cursor_y) = self.cursor.center(area);
        if !self.cursor.fits_area(area) {
            return Err(Overflow);
        }
        let cursor_rect = self.cursor.rect(area);

        match self.caught_state {
            Some(caught) => {
                let ticks_left = caught.ticks_left.saturating_sub(1);
                if ticks_left == 0 {
                    self.caught_state = None;
                    self.emblem_state.reset();
                    self.emblem_reaction = 0;
                } else {
                    self.caught_state = Some(CaughtState { ticks_left });
                }
                timers.dirty = true;
            },
            None => {
                if !self.emblem_state.tick_fits(area, cursor_x, cursor_y, progress) {
                    return Err(Overflow);
                }
                let changed = self.emblem_state.tick(area, cursor_x, cursor_y, progress);
                timers.dirty = timers.dirty || changed;
                let stage = stage_rect(area);
                if !stage_center_fits_at(stage, self.emblem_state.offset_x, self.emblem_state.offset_y) {
                    return Err(Overflow);
                }
                let (emblem_x, emblem_y) = crate::emblem::stage_center(
                    area,
                    self.emblem_state.offset_x,
                    self.emblem_state.offset_y,
                );
                self.tutorial.observe_emblem(
                    self.emblem_state.enraged,
                    cursor_x as i32 - emblem_x as i32,
                    cursor_y as i32 - emblem_y as i32,
                );
                if self.emblem_state.enraged && !self.emblem_state.in_grace_period() {
                    if !overlap_fits_at(
                        stage,
                        cursor_rect,
                        self.emblem_state.offset_x,
                        self.emblem_state.offset_y,
                    ) {
                        return Err(Overflow);
                    }
                    if crate::emblem::overlaps_cursor(
                        area,
                        cursor_rect,
                        self.emblem_state.offset_x,
                        self.emblem_state.offset_y,
                    ) {
                        self.caught_state = Some(CaughtState { ticks_left: CAUGHT_SHAKE_TICKS });
                        self.cursor.cancel_recenter();
                        timers.dirty = true;
                    }
                }
            },
        }
        timers.last_emblem_motion = now;
        Ok(())
    }

    /// The animation step at `now`.
    pub fn animation_frame(&mut self, timers: &mut Timers, now: u64)
        ensures
            old(self).menu.wf() ==> final(self).menu.wf(),
            (final(self)@, *final(timers)) == spec_animation_frame(old(self)@, *old(timers), now),
    {
        self.tick = self.tick.wrapping_add(1);
        self.advance_menu_animation();
        self.emblem_reaction = self.emblem_reaction.saturating_sub(1);
        timers.last_animation = now;
        timers.dirty = true;
    }

    /// The status line at the bottom of the screen.
    pub fn status_line(&self) -> (r: &'static str)
        ensures
            r@ == spec_status(self@),
    {
        if self.menu_visible() {
            "Arrows move cursor • c recenters • q closes menu"
        } else if self.caught_state.is_some() {
            "The emblem caught you, shook you, and will reset"
        } else if self.emblem_state.in_grace_period() {
            "The emblem is waking up. Move."
        } else if self.emblem_state.is_resetting() {
            "The emblem is spiraling back into place"
        } else if self.emblem_state.enraged {
            "The emblem is enraged and stalking you"
        } else if self.emblem_reaction > 0 {
            "Enter on emblem awakened it"
        } else {
            "E opens menu • C recenters • Enter touches emblem • q exits"
        }
    }

    /// The about box in `area`, when shown and at least two cells wide and
    /// tall.
    pub fn draw_menu(&self, area: Rect) -> (r: Option<MenuScene>)
        ensures
            menu_scene_ok(r, self@, area),
    {
        if !self.menu_visible() {
            return None;
        }
        let progress = self.menu_progress();
        let menu_area = centered_rect(
            area,
            scaled_dimension(MENU_WIDTH, progress),
            scaled_dimension(MENU_HEIGHT, progress),
        );

        if menu_area.width < 2 || menu_area.height < 2 {
            return None;
        }
        if progress == MENU_ANIMATION_STEPS {
            let lines = render_lines();
            let placements = place_menu_lines(inner_box(menu_area), lines.len());
            Some(MenuScene { area: menu_area, title: "About", lines, placements })
        } else {
            Some(MenuScene { area: menu_area, title: "", lines: Vec::new(), placements: Vec::new() })
        }
    }

    /// The tutorial box beside the cursor in `area`.
    pub fn draw_tutorial(&mut self, area: Rect) -> (r: Result<TutorialScene, Overflow>)
        ensures
            final(self).menu == old(self).menu,
            r is Err <==> !(bounds_fit(old(self)@.cursor, area) && tutorial_box_fits(
                area,
                Rect::spec_new(
                    spec_fit(old(self)@.cursor, area).x,
                    spec_fit(old(self)@.cursor, area).y,
                    CURSOR_SIZE,
                    CURSOR_SIZE,
                ),
            )),
            r is Ok ==> {
                &&& final(self)@ == (AppView { cursor: spec_fit(old(self)@.cursor, area), ..old(self)@ })
                &&& r->Ok_0.area == spec_tutorial_box(
                    area,
                    Rect::spec_new(
                        spec_fit(old(self)@.cursor, area).x,
                        spec_fit(old(self)@.cursor, area).y,
                        CURSOR_SIZE,
                        CURSOR_SIZE,
                    ),
                    !(old(self).menu is Closed),
                )
                &&& r->Ok_0.title@ == spec_lesson_title(old(self).tutorial.stage)
                &&& lesson_lines_ok(r->Ok_0.lines@, old(self).tutorial)
                &&& tutorial_placements_ok(
                    r->Ok_0.placements@,
                    r->Ok_0.lines@,
                    spec_inner_box(r->Ok_0.area),
                )
            },
    {
        if !self.cursor.fits_area(area) {
            return Err(Overflow);
        }
        let cursor_area = self.cursor.rect(area);
        if !tutorial_box_fits_at(area, cursor_area) {
            return Err(Overflow);
        }
        let tutorial_area = tutorial_box_rect(area, cursor_area, self.menu_visible());
        let lines = self.tutorial.render_lines();
        let placements = place_tutorial_lines(inner_box(tutorial_area), &lines);
        Ok(TutorialScene { area: tutorial_area, title: self.tutorial.title(), lines, placements })
    }

    /// Lays out one screenful in `area` (see [`Scene`]). Fails exactly where a
    /// step would leave its integer range.
    pub fn draw(&mut self, area: Rect) -> (r: Result<Scene, Overflow>)
        ensures
            final(self).menu == old(self).menu,
            r is Err <==> !draw_fits(old(self)@, area),
            r is Ok ==> {
                let a = old(self)@;
                let s = r->Ok_0;
                &&& final(self)@ == (AppView { cursor: spec_draw_cursor(a, area), ..a })
                &&& emblem_scene_ok(
                    s.emblem,
                    area,
                    spec_pulse_phase(a),
                    a.emblem_reaction,
                    a.emblem_state.offset_x,
                    a.emblem_state.offset_y,
                    a.emblem_state.enraged,
                )
                &&& s.title == a.title
                &&& s.status@ == spec_status(a)
                &&& menu_scene_ok(s.menu, a, area)
                &&& tutorial_scene_ok(s.tutorial, a, area)
                &&& cursor_render_ok(
                    s.cursor,
                    spec_draw_cursor(a, area),
                    area,
                    spec_shake(a).0,
                    spec_shake(a).1,
                )
            },
    {
        let ghost a = self@;
        let stage = stage_rect(area);
        if !origin_fits_at(stage, self.emblem_state.offset_x, self.emblem_state.offset_y) {
            return Err(Overflow);
        }
        let pulse = self.pulse_phase();
        proof {
            lemma_ray_field_fits(area, pulse);
        }
        let emblem = crate::emblem::render(
            area,
            pulse,
            self.emblem_reaction,
            self.emblem_state.offset_x,
            self.emblem_state.offset_y,
            self.emblem_state.enraged,
        );
        let status = self.status_line();
        let menu = if self.menu_visible() {
            self.draw_menu(area)
        } else {
            None
        };
        let tutorial = if !self.tutorial.complete() {
            Some(self.draw_tutorial(area)?)
        } else {
            None
        };
        if !Cursor::area_fits(area) {
            return Err(Overflow);
        }
        let (shake_x, shake_y) = self.cursor_shake_offset();
        let cursor = self.cursor.render_with_offset(area, shake_x, shake_y);
        Ok(Scene { emblem, title: self.title, status, menu, tutorial, cursor })
    }
}

} // verus!
