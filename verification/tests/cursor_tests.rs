use pusillanipous::cursor::{
    apply_delta, clamp_target, cursor_glyph, ghost_glyph, ghost_tints, step_toward_by, Cursor,
    GhostCell, OrbitPoints, VortexSeed, GHOST_LENGTH,
};
use pusillanipous::geometry::Rect;
use pusillanipous::tint::Tint;

fn area() -> Rect {
    Rect::new(0, 0, 80, 24)
}

#[test]
fn first_use_places_cursor_in_the_middle() {
    let mut cursor = Cursor::default();
    assert_eq!(cursor.center(area()), (39, 11));
    assert_eq!(cursor.position(), (38, 10));
    assert_eq!(cursor.rect(area()), Rect::new(38, 10, 3, 3));
}

#[test]
fn move_by_records_trail() {
    let mut cursor = Cursor::default();
    cursor.center(area());
    assert!(cursor.move_by(2, 0));
    assert_eq!(cursor.position(), (40, 10));
    assert_eq!(cursor.trail().clone(), vec![(38, 10), (39, 10)]);
}

#[test]
fn move_by_zero_does_not_move() {
    let mut cursor = Cursor::default();
    cursor.center(area());
    assert!(!cursor.move_by(0, 0));
    assert_eq!(cursor.position(), (38, 10));
    assert!(cursor.trail().is_empty());
}

#[test]
fn move_and_back_returns() {
    let mut cursor = Cursor::default();
    cursor.center(area());
    cursor.move_by(5, -3);
    cursor.move_by(-5, 3);
    assert_eq!(cursor.position(), (38, 10));
}

#[test]
fn diagonal_move_records_diagonal_path() {
    let mut cursor = Cursor::default();
    cursor.center(area());
    assert!(cursor.move_by(3, 1));
    assert_eq!(cursor.trail().clone(), vec![(38, 10), (39, 11), (40, 11)]);
}

#[test]
fn trail_keeps_only_newest_cells() {
    let mut cursor = Cursor::default();
    cursor.center(area());
    cursor.move_by(2, 0);
    assert!(cursor.move_by(-100, 0));
    assert_eq!(cursor.position(), (0, 10));
    let trail = cursor.trail().clone();
    assert_eq!(trail.len(), GHOST_LENGTH);
    let expected: Vec<(u16, u16)> = (1..=24).rev().map(|x| (x, 10)).collect();
    assert_eq!(trail, expected);
}

#[test]
fn recenter_spirals_and_arrives() {
    let small = Rect::new(0, 0, 10, 10);
    let mut cursor = Cursor::default();
    assert_eq!(cursor.center(small), (4, 4));
    assert!(cursor.recenter_on(small, 6, 5));
    assert!(cursor.is_recentering());
    assert_eq!(cursor.target(), Some((5, 4)));
    assert_eq!(
        cursor.vortex_plan(),
        Some((VortexSeed { offset_x: -2, offset_y: -1, advances: 0 }, (5, 4)))
    );
    assert!(!cursor.recenter_on(small, 6, 5));

    let orbit = OrbitPoints { first: (5, 4), second: (5, 4) };
    assert!(cursor.tick_fits(orbit));
    assert!(cursor.tick(orbit));
    assert_eq!(cursor.position(), (5, 4));
    assert!(!cursor.is_recentering());
    assert_eq!(cursor.vortex_plan(), None);
    assert_eq!(cursor.trail().clone(), vec![(3, 3), (4, 4)]);

    assert!(cursor.tick(orbit));
    assert_eq!(cursor.trail().clone(), vec![(4, 4)]);
    assert!(cursor.tick(orbit));
    assert!(!cursor.tick(orbit));
}

#[test]
fn tick_follows_the_orbit_far_from_target() {
    let mut cursor = Cursor::default();
    cursor.center(area());
    assert!(cursor.recenter_on(area(), 50, 15));
    assert_eq!(cursor.target(), Some((49, 14)));
    let orbit = OrbitPoints { first: (60, 2), second: (60, 20) };
    assert!(cursor.tick(orbit));
    assert_eq!(cursor.position(), (40, 10));
    assert_eq!(cursor.trail().clone(), vec![(38, 10), (39, 10)]);
    assert_eq!(
        cursor.vortex_plan(),
        Some((VortexSeed { offset_x: -11, offset_y: -4, advances: 2 }, (49, 14)))
    );
}

#[test]
fn retarget_keeps_spiral_and_needs_recentering() {
    let mut cursor = Cursor::default();
    cursor.center(area());
    assert!(!cursor.retarget_recenter(area(), 10, 10));
    assert_eq!(cursor.target(), None);
    cursor.recenter_on(area(), 50, 15);
    assert!(cursor.retarget_recenter(area(), 20, 5));
    assert_eq!(cursor.target(), Some((19, 4)));
    assert!(!cursor.retarget_recenter(area(), 20, 5));
    cursor.cancel_recenter();
    assert!(!cursor.is_recentering());
}

#[test]
fn move_stops_recentering() {
    let mut cursor = Cursor::default();
    cursor.center(area());
    cursor.recenter_on(area(), 50, 15);
    cursor.move_by(1, 0);
    assert!(!cursor.is_recentering());
}

#[test]
fn fitting_clamps_position_and_drops_trail_outside() {
    let mut cursor = Cursor::default();
    cursor.center(area());
    cursor.move_by(30, 0);
    assert_eq!(cursor.position(), (68, 10));
    let smaller = Rect::new(0, 0, 50, 20);
    assert_eq!(cursor.center(smaller), (48, 11));
    assert!(cursor.trail().iter().all(|&(x, _)| x <= 47));
    assert_eq!(cursor.trail().len(), 24 - 20);
}

#[test]
fn render_lists_ghosts_newest_first() {
    let small = Rect::new(0, 0, 10, 10);
    let mut cursor = Cursor::default();
    cursor.center(small);
    cursor.recenter_on(small, 6, 5);
    cursor.tick(OrbitPoints { first: (5, 4), second: (5, 4) });
    let render = cursor.render_with_offset(small, 1, 0);
    assert_eq!(
        render.ghosts,
        vec![
            GhostCell {
                area: Rect::new(4, 4, 3, 3),
                edge: Tint::Indexed(188),
                core: Tint::Indexed(117),
            },
            GhostCell {
                area: Rect::new(3, 3, 3, 3),
                edge: Tint::Indexed(145),
                core: Tint::Indexed(74),
            },
        ]
    );
    assert_eq!(render.cursor, Rect::new(6, 4, 3, 3));
    let shaken = cursor.render_with_offset(small, 5, -9);
    assert_eq!(shaken.cursor, Rect::new(7, 0, 3, 3));
}

#[test]
fn ghost_colours_fade() {
    assert_eq!(ghost_tints(0), (Tint::Indexed(188), Tint::Indexed(117)));
    assert_eq!(ghost_tints(2), (Tint::Indexed(103), Tint::Indexed(67)));
    assert_eq!(ghost_tints(9), (Tint::Indexed(60), Tint::Indexed(60)));
    let ghost = ghost_glyph(1);
    assert_eq!(ghost.len(), 3);
    assert_eq!(ghost[0].text, "▛▀▜");
    assert_eq!(ghost[0].tint, Some(Tint::Indexed(145)));
    assert_eq!(ghost[1].text, "▌█▐");
    assert_eq!(ghost[1].tint, Some(Tint::Indexed(74)));
    let cursor = cursor_glyph();
    assert_eq!(cursor[2].text, "▙▄▟");
    assert_eq!(cursor[2].tint, Some(Tint::Indexed(230)));
}

#[test]
fn step_and_delta() {
    assert_eq!(step_toward_by(5, 9, 1), 6);
    assert_eq!(step_toward_by(5, 3, 4), 3);
    assert_eq!(step_toward_by(7, 7, 2), 7);
    assert_eq!(step_toward_by(65534, 65535, 9), 65535);
    assert_eq!(apply_delta(2, -5), 0);
    assert_eq!(apply_delta(65530, 10), 65535);
    assert_eq!(apply_delta(40000, i16::MIN), 40000 - 32768);
}

#[test]
fn target_is_clamped_into_range() {
    assert_eq!(clamp_target(area(), 0, 0), (0, 0));
    assert_eq!(clamp_target(area(), 100, 100), (77, 21));
    assert_eq!(clamp_target(Rect::new(5, 5, 20, 20), 10, 3), (9, 5));
}

#[test]
fn rect_is_trimmed_at_the_coordinate_edge() {
    assert_eq!(Rect::new(65534, 0, 3, 3), Rect { x: 65534, y: 0, width: 1, height: 3 });
}

#[test]
fn range_checks_report_overflow() {
    let far = Rect { x: 65000, y: 0, width: 1000, height: 10 };
    let mut cursor = Cursor::default();
    assert!(cursor.fits_area(far));
    assert!(cursor.center_fits(far));
    assert_eq!(cursor.center(far), (65499, 4));
    assert!(!cursor.fits_area(far));
    assert!(!Cursor::area_fits(far));
    assert!(Cursor::area_fits(area()));
}

#[test]
fn far_spiral_does_not_fit_in_sixteen_bits() {
    let wide = Rect::new(0, 0, 1000, 10);
    let mut cursor = Cursor::default();
    cursor.center(wide);
    cursor.move_by(-500, 0);
    cursor.recenter_on(wide, 900, 4);
    assert!(!cursor.tick_fits(OrbitPoints { first: (0, 0), second: (0, 0) }));
}

#[test]
fn a_short_spiral_fits_whatever_the_orbit() {
    let mut cursor = Cursor::default();
    cursor.center(area());
    cursor.recenter_on(area(), 50, 11);
    assert_eq!(cursor.target(), Some((49, 10)));
    for orbit in [
        OrbitPoints { first: (65535, 65535), second: (0, 0) },
        OrbitPoints { first: (0, 65535), second: (65535, 0) },
        OrbitPoints { first: (49, 10), second: (49, 10) },
    ] {
        assert!(cursor.tick_fits(orbit));
    }
}
