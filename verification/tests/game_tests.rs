use pusillanipous::chase::ResetProgress;
use pusillanipous::cursor::OrbitPoints;
use pusillanipous::game::{
    scaled_dimension, tutorial_box_fits_at, tutorial_box_rect, App, CaughtState, Flow, Key, KeyKind,
    Overflow, Timers,
};
use pusillanipous::geometry::Rect;
use pusillanipous::input::{InputMode, MILLISECOND};
use pusillanipous::menu::{render_lines, MenuState};
use pusillanipous::tutorial::TutorialStage;
use pusillanipous::text::TextPlacement;
use ratatui::layout::{Constraint, Flex, Layout};
use ratatui::widgets::{Block, Borders};

const MS: u64 = MILLISECOND;

fn area() -> Rect {
    Rect::new(0, 0, 80, 24)
}

fn still() -> OrbitPoints {
    OrbitPoints { first: (0, 0), second: (0, 0) }
}

fn centered_by_ratatui(area: Rect, width: u16, height: u16) -> Rect {
    let outer = ratatui::layout::Rect::new(area.x, area.y, area.width, area.height);
    let [rows] = Layout::vertical([Constraint::Length(height)])
        .flex(Flex::Center)
        .areas(outer);
    let [cell] = Layout::horizontal([Constraint::Length(width)])
        .flex(Flex::Center)
        .areas(rows);
    Rect::new(cell.x, cell.y, cell.width, cell.height)
}

fn inner_by_ratatui(area: Rect) -> Rect {
    let outer = ratatui::layout::Rect::new(area.x, area.y, area.width, area.height);
    let inner = Block::default().borders(Borders::ALL).inner(outer);
    Rect::new(inner.x, inner.y, inner.width, inner.height)
}

fn press(app: &mut App, t: &mut Timers, key: Key) -> Result<Flow, Overflow> {
    app.handle_key(t, key, KeyKind::Press, 0, Some(area()))
}

fn started() -> (App, Timers) {
    let mut app = App::new(false);
    let t = app.start_run(0);
    (app, t)
}

#[test]
fn new_game_is_fresh() {
    let app = App::new(false);
    assert_eq!(app.title, "");
    assert_eq!(app.tick, 0);
    assert_eq!(app.menu, MenuState::Closed);
    assert!(matches!(app.input_mode, InputMode::Fallback(_)));
    assert_eq!(app.tutorial.stage, TutorialStage::Movement);
    assert_eq!(app.caught_state, None);
    assert_eq!(app.emblem_reaction, 0);
    assert!(matches!(App::new(true).input_mode, InputMode::Enhanced(_)));
}

#[test]
fn starting_names_the_game_and_asks_for_a_drawing() {
    let mut app = App::new(false);
    let t = app.start_run(7);
    assert_eq!(app.title, "Pusillanipous");
    assert_eq!(t, Timers { dirty: true, last_movement: 7, last_emblem_motion: 7, last_animation: 7 });
}

#[test]
fn quit_ends_only_with_the_menu_closed() {
    let (mut app, mut t) = started();
    assert_eq!(press(&mut app, &mut t, Key::Char('q')), Ok(Flow::Exit));
    assert_eq!(press(&mut app, &mut t, Key::Char('e')), Ok(Flow::Continue));
    assert_eq!(app.menu, MenuState::Opening(0));
    assert_eq!(press(&mut app, &mut t, Key::Esc), Ok(Flow::Continue));
    assert_eq!(app.menu, MenuState::Closing(0));
}

#[test]
fn menu_opens_over_animation_frames() {
    let (mut app, mut t) = started();
    press(&mut app, &mut t, Key::Char('E')).unwrap();
    for _ in 0..6 {
        app.animation_frame(&mut t, 0);
    }
    assert_eq!(app.menu, MenuState::Opening(6));
    app.animation_frame(&mut t, 120 * MS);
    assert_eq!(app.menu, MenuState::Open);
    assert_eq!(app.menu_progress(), 6);
    assert_eq!(t.last_animation, 120 * MS);
    assert_eq!(press(&mut app, &mut t, Key::Char('q')), Ok(Flow::Continue));
    assert_eq!(app.menu, MenuState::Closing(6));
    assert!(app.menu_visible());
}

#[test]
fn animation_frame_counts_ticks_and_calms_reactions() {
    let (mut app, mut t) = started();
    app.tick = u32::MAX;
    app.emblem_reaction = 3;
    t.dirty = false;
    app.animation_frame(&mut t, 5);
    assert_eq!(app.tick, 0);
    assert_eq!(app.emblem_reaction, 2);
    assert!(t.dirty);
    app.tick = 20;
    assert_eq!(app.pulse_phase(), 3);
}

#[test]
fn arrow_keys_teach_movement() {
    let (mut app, mut t) = started();
    press(&mut app, &mut t, Key::Up).unwrap();
    press(&mut app, &mut t, Key::Down).unwrap();
    press(&mut app, &mut t, Key::Left).unwrap();
    assert_eq!(app.tutorial.stage, TutorialStage::Movement);
    press(&mut app, &mut t, Key::Right).unwrap();
    assert_eq!(app.tutorial.stage, TutorialStage::AnnoyBird);
}

#[test]
fn repeated_keys_do_not_teach() {
    let (mut app, mut t) = started();
    app.handle_key(&mut t, Key::Up, KeyKind::Repeat, 0, None).unwrap();
    assert!(!app.tutorial.movement.up);
    app.handle_key(&mut t, Key::Up, KeyKind::Release, 0, None).unwrap();
    assert!(!app.tutorial.movement.up);
}

#[test]
fn held_arrow_moves_the_cursor() {
    let (mut app, mut t) = started();
    app.cursor.center(area());
    app.handle_key(&mut t, Key::Right, KeyKind::Press, 0, None).unwrap();
    assert!(!app.movement_due(&t, 15 * MS));
    assert!(app.movement_due(&t, 16 * MS));
    assert!(!app.movement_needs_area());
    assert_eq!(app.prepare_movement(None), Ok(()));
    assert_eq!(app.finish_movement(&mut t, 16 * MS, still()), Ok(()));
    assert_eq!(app.cursor.position(), (40, 10));
    assert_eq!(t.last_movement, 16 * MS);
}

#[test]
fn released_arrow_stops_the_cursor() {
    let mut app = App::new(true);
    let mut t = app.start_run(0);
    app.cursor.center(area());
    app.handle_key(&mut t, Key::Left, KeyKind::Press, 0, None).unwrap();
    assert_eq!(app.advance_cursor(10 * MS, still()), Ok(true));
    assert_eq!(app.cursor.position(), (36, 10));
    assert_eq!(app.advance_cursor(200 * MS, still()), Ok(true));
    assert_eq!(app.cursor.position(), (32, 10));
    app.handle_key(&mut t, Key::Left, KeyKind::Release, 0, None).unwrap();
    let trail_before = app.cursor.trail().len();
    assert_eq!(app.advance_cursor(220 * MS, still()), Ok(true));
    assert_eq!(app.cursor.position(), (32, 10));
    assert_eq!(app.cursor.trail().len(), trail_before - 1);
}

#[test]
fn recenter_aims_at_the_emblem() {
    let (mut app, mut t) = started();
    app.cursor.center(area());
    assert_eq!(press(&mut app, &mut t, Key::Char('c')), Ok(Flow::Continue));
    assert_eq!(app.cursor.target(), Some((38, 7)));
    assert!(app.movement_needs_area());
    assert_eq!(app.prepare_movement(Some(area())), Ok(()));
    assert_eq!(app.cursor.target(), Some((38, 7)));
}

#[test]
fn enter_on_the_emblem_touches_it() {
    let (mut app, mut t) = started();
    t.dirty = false;
    assert_eq!(press(&mut app, &mut t, Key::Enter), Ok(Flow::Continue));
    assert_eq!(app.emblem_state.hit_count, 1);
    assert_eq!(app.emblem_reaction, 8);
    assert!(t.dirty);
    assert_eq!(app.status_line(), "Enter on emblem awakened it");
}

#[test]
fn enter_away_from_the_emblem_does_nothing() {
    let (mut app, mut t) = started();
    app.cursor.center(area());
    app.cursor.move_by(-30, 0);
    t.dirty = false;
    assert_eq!(press(&mut app, &mut t, Key::Enter), Ok(Flow::Continue));
    assert_eq!(app.emblem_state.hit_count, 0);
    assert!(!t.dirty);
}

#[test]
fn five_touches_enrage_and_teach_the_next_lesson() {
    let (mut app, mut t) = started();
    for key in [Key::Up, Key::Down, Key::Left, Key::Right] {
        press(&mut app, &mut t, key).unwrap();
    }
    for _ in 0..5 {
        press(&mut app, &mut t, Key::Enter).unwrap();
    }
    assert_eq!(app.tutorial.bird_hits, 5);
    assert!(app.emblem_state.enraged);
    assert_eq!(app.status_line(), "The emblem is waking up. Move.");
    assert_eq!(app.emblem_frame(&mut t, 48 * MS, area(), ResetProgress::Settled), Ok(()));
    assert_eq!(app.tutorial.stage, TutorialStage::EscapeBird);
    assert_eq!(app.emblem_state.grace_ticks, 9);
    assert_eq!(t.last_emblem_motion, 48 * MS);
}

#[test]
fn gaining_distance_finishes_the_tutorial() {
    let (mut app, mut t) = started();
    app.cursor.center(area());
    app.tutorial.stage = TutorialStage::EscapeBird;
    app.cursor.move_by(30, 0);
    app.emblem_frame(&mut t, 0, area(), ResetProgress::Settled).unwrap();
    assert_eq!(app.tutorial.stage, TutorialStage::Done);
}

#[test]
fn staying_close_keeps_the_escape_lesson() {
    let (mut app, mut t) = started();
    app.cursor.center(area());
    app.tutorial.stage = TutorialStage::EscapeBird;
    app.emblem_frame(&mut t, 0, area(), ResetProgress::Settled).unwrap();
    assert_eq!(app.tutorial.stage, TutorialStage::EscapeBird);
}

#[test]
fn the_chasing_emblem_catches_shakes_and_resets() {
    let (mut app, mut t) = started();
    app.cursor.center(area());
    app.emblem_state.enraged = true;
    app.emblem_state.hit_count = 5;
    assert_eq!(app.status_line(), "The emblem is enraged and stalking you");
    app.emblem_frame(&mut t, 0, area(), ResetProgress::Settled).unwrap();
    assert_eq!(app.caught_state, Some(CaughtState { ticks_left: 8 }));
    assert_eq!((app.emblem_state.offset_x, app.emblem_state.offset_y), (-1, -1));
    assert_eq!(app.cursor_shake_offset(), (0, 1));
    assert_eq!(app.status_line(), "The emblem caught you, shook you, and will reset");
    for _ in 0..7 {
        app.emblem_frame(&mut t, 0, area(), ResetProgress::Settled).unwrap();
    }
    assert_eq!(app.caught_state, Some(CaughtState { ticks_left: 1 }));
    assert_eq!(app.cursor_shake_offset(), (-1, 0));
    app.emblem_frame(&mut t, 0, area(), ResetProgress::Settled).unwrap();
    assert_eq!(app.caught_state, None);
    assert!(!app.emblem_state.enraged);
    assert!(app.emblem_state.is_resetting());
    assert_eq!(app.status_line(), "The emblem is spiraling back into place");
}

#[test]
fn caught_cursor_does_not_move_but_is_redrawn() {
    let (mut app, mut t) = started();
    app.cursor.center(area());
    app.caught_state = Some(CaughtState { ticks_left: 4 });
    app.handle_key(&mut t, Key::Right, KeyKind::Press, 0, None).unwrap();
    t.dirty = false;
    app.finish_movement(&mut t, 16 * MS, still()).unwrap();
    assert_eq!(app.cursor.position(), (38, 10));
    assert!(t.dirty);
}

#[test]
fn status_lines() {
    let (mut app, _t) = started();
    assert_eq!(app.status_line(), "E opens menu • C recenters • Enter touches emblem • q exits");
    app.menu = MenuState::Open;
    assert_eq!(app.status_line(), "Arrows move cursor • c recenters • q closes menu");
}

#[test]
fn keys_that_need_the_screen() {
    assert!(App::key_needs_area(Key::Char('c'), KeyKind::Press));
    assert!(App::key_needs_area(Key::Char('C'), KeyKind::Press));
    assert!(App::key_needs_area(Key::Enter, KeyKind::Press));
    assert!(!App::key_needs_area(Key::Enter, KeyKind::Release));
    assert!(!App::key_needs_area(Key::Up, KeyKind::Press));
    assert!(!App::key_needs_area(Key::Char('q'), KeyKind::Press));
}

#[test]
fn frame_timers() {
    let (app, t) = started();
    assert!(!app.emblem_due(&t, 47 * MS));
    assert!(app.emblem_due(&t, 48 * MS));
    assert!(!app.animation_due(&t, 119 * MS));
    assert!(app.animation_due(&t, 120 * MS));
}

#[test]
fn menu_size_follows_its_animation() {
    assert_eq!(scaled_dimension(34, 6), 34);
    assert_eq!(scaled_dimension(34, 3), 17);
    assert_eq!(scaled_dimension(10, 1), 1);
    assert_eq!(scaled_dimension(34, 0), 1);
    assert_eq!(scaled_dimension(65535, 6), 10922);
}

#[test]
fn tutorial_box_sits_beside_the_cursor() {
    let cursor = Rect::new(38, 10, 3, 3);
    assert_eq!(tutorial_box_rect(area(), cursor, false), Rect::new(43, 8, 32, 11));
    assert_eq!(tutorial_box_rect(area(), cursor, true), Rect::new(4, 8, 32, 11));
    assert_eq!(tutorial_box_rect(area(), Rect::new(70, 2, 3, 3), false), Rect::new(48, 1, 32, 11));
    assert_eq!(
        tutorial_box_rect(Rect::new(0, 0, 20, 10), Rect::new(5, 5, 3, 3), false),
        Rect::new(0, 1, 32, 11)
    );
    assert!(tutorial_box_fits_at(area(), cursor));
    assert!(!tutorial_box_fits_at(Rect { x: 65530, y: 0, width: 100, height: 30 }, cursor));
}

#[test]
fn first_drawing() {
    let (mut app, _t) = started();
    let scene = app.draw(area()).expect("drawable");
    assert_eq!(scene.title, "Pusillanipous");
    assert_eq!(scene.status, "E opens menu • C recenters • Enter touches emblem • q exits");
    assert!(scene.menu.is_none());
    let tutorial = scene.tutorial.expect("tutorial shown");
    assert_eq!(tutorial.area, Rect::new(43, 8, 32, 11));
    assert_eq!(tutorial.title, "Movement");
    let inner = inner_by_ratatui(tutorial.area);
    assert_eq!(inner, Rect::new(44, 9, 30, 9));
    assert_eq!(tutorial.placements.len(), tutorial.lines.len());
    for (line, place) in tutorial.lines.iter().zip(tutorial.placements.iter()) {
        let width = ratatui::text::Line::raw(line.text.as_str()).width() as u16;
        assert_eq!(place.x, inner.x + inner.width.saturating_sub(width) / 2);
        assert_eq!(place.width, inner.width);
    }
    assert_eq!(tutorial.placements[0].y, 9);
    assert_eq!(tutorial.placements[2].y, 11);
    assert_eq!(scene.cursor.cursor, Rect::new(38, 10, 3, 3));
    assert_eq!(scene.emblem.stage, Rect::new(5, 4, 70, 16));
    assert!(scene.emblem.halo.is_none());
    assert_eq!(app.cursor.position(), (38, 10));
}

#[test]
fn drawing_with_the_menu_open() {
    let (mut app, _t) = started();
    app.menu = MenuState::Open;
    let scene = app.draw(area()).unwrap();
    let menu = scene.menu.expect("menu shown");
    assert_eq!(menu.area, centered_by_ratatui(area(), 34, 10));
    assert_eq!(menu.title, "About");
    assert_eq!(menu.lines, render_lines());
    let inner = inner_by_ratatui(menu.area);
    assert_eq!(inner, Rect::new(menu.area.x + 1, menu.area.y + 1, 32, 8));
    assert_eq!(menu.placements.len(), 7);
    for (i, place) in menu.placements.iter().enumerate() {
        assert_eq!(*place, TextPlacement { x: inner.x, y: inner.y + i as u16, width: inner.width });
    }
    assert_eq!(scene.tutorial.unwrap().area, Rect::new(4, 8, 32, 11));
}

#[test]
fn about_text_is_cut_to_a_small_box() {
    let (mut app, _t) = started();
    app.menu = MenuState::Open;
    let small = Rect::new(0, 0, 30, 8);
    let menu = app.draw_menu(small).expect("menu shown");
    let inner = inner_by_ratatui(menu.area);
    assert_eq!(inner.height, 6);
    assert_eq!(menu.lines.len(), 7);
    assert_eq!(menu.placements.len(), 6);
    assert_eq!(menu.placements[5], TextPlacement { x: inner.x, y: inner.y + 5, width: inner.width });
}

#[test]
fn closed_menu_is_not_drawn() {
    let (app, _t) = started();
    assert!(app.draw_menu(area()).is_none());
}

#[test]
fn drawing_a_growing_menu() {
    let (mut app, _t) = started();
    app.menu = MenuState::Opening(0);
    assert!(app.draw(area()).unwrap().menu.is_none());
    app.menu = MenuState::Opening(3);
    let menu = app.draw(area()).unwrap().menu.expect("half open");
    assert_eq!(menu.area, centered_by_ratatui(area(), 17, 5));
    assert_eq!(menu.title, "");
    assert!(menu.lines.is_empty());
    assert!(menu.placements.is_empty());
}

#[test]
fn finished_tutorial_is_not_drawn() {
    let (mut app, _t) = started();
    app.tutorial.stage = TutorialStage::Done;
    assert!(app.draw(area()).unwrap().tutorial.is_none());
}

#[test]
fn drawing_in_an_area_past_the_coordinate_limit_fails() {
    let (mut app, _t) = started();
    let result = app.draw(Rect { x: 65530, y: 0, width: 100, height: 30 });
    assert!(result.is_err());
}

#[test]
fn tutorial_lines_are_centred_by_width() {
    let (mut app, _t) = started();
    app.tutorial.stage = TutorialStage::AnnoyBird;
    let scene = app.draw_tutorial(area()).expect("drawable");
    assert_eq!(scene.lines[0].text, "Try to annoy the bird");
    assert_eq!(scene.placements[0], TextPlacement { x: 48, y: 9, width: 30 });
    assert_eq!(scene.placements[1], TextPlacement { x: 59, y: 10, width: 30 });
    assert_eq!(scene.placements[2], TextPlacement { x: 51, y: 11, width: 30 });
    assert_eq!(scene.placements.len(), 6);
}
