use pusillanipous::emblem::{
    center, clamp_rect_to_area, glow_phase, is_cursor_over, mascot_lines, overlaps_cursor,
    pulse_offset, ray_color, ray_field, ray_glyph, ray_metrics, reaction_shift, render,
    rendered_stage_rect, stage_center, stage_rect, wing_gap, Segment, SignedRect,
};
use pusillanipous::geometry::Rect;
use pusillanipous::layout::centered_rect;
use pusillanipous::tint::Tint;
use ratatui::layout::{Constraint, Flex, Layout};

fn area() -> Rect {
    Rect::new(0, 0, 80, 24)
}

fn tui(r: Rect) -> ratatui::layout::Rect {
    ratatui::layout::Rect::new(r.x, r.y, r.width, r.height)
}

fn from_tui(r: ratatui::layout::Rect) -> Rect {
    Rect::new(r.x, r.y, r.width, r.height)
}

fn centered_by_ratatui(area: Rect, width: u16, height: u16) -> Rect {
    let [rows] = Layout::vertical([Constraint::Length(height)])
        .flex(Flex::Center)
        .areas(tui(area));
    let [cell] = Layout::horizontal([Constraint::Length(width)])
        .flex(Flex::Center)
        .areas(rows);
    from_tui(cell)
}

#[test]
fn stage_is_centred_in_a_standard_terminal() {
    assert_eq!(stage_rect(area()), Rect::new(5, 4, 70, 16));
}

#[test]
fn stage_matches_ratatui_layout_on_several_areas() {
    let areas = [
        Rect::new(0, 0, 80, 24),
        Rect::new(3, 2, 101, 37),
        Rect::new(0, 0, 40, 10),
        Rect::new(10, 10, 71, 17),
        Rect::new(0, 0, 0, 0),
    ];
    for a in areas {
        assert_eq!(stage_rect(a), centered_by_ratatui(a, 70, 16));
        assert_eq!(centered_rect(a, 19, 6), centered_by_ratatui(a, 19, 6));
    }
}

#[test]
fn clickable_part_sits_below_the_top_of_the_stage() {
    assert!(is_cursor_over(area(), 31, 5, 0, 0));
    assert!(is_cursor_over(area(), 47, 11, 0, 0));
    assert!(!is_cursor_over(area(), 30, 5, 0, 0));
    assert!(!is_cursor_over(area(), 48, 5, 0, 0));
    assert!(!is_cursor_over(area(), 31, 4, 0, 0));
    assert!(!is_cursor_over(area(), 31, 12, 0, 0));
}

#[test]
fn clickable_part_follows_the_offset() {
    assert!(!is_cursor_over(area(), 31, 5, 10, 0));
    assert!(is_cursor_over(area(), 41, 5, 10, 0));
    assert!(is_cursor_over(area(), 41, 7, 10, 2));
}

#[test]
fn overlap_with_cursor_box() {
    assert!(!overlaps_cursor(area(), Rect::new(28, 5, 3, 3), 0, 0));
    assert!(overlaps_cursor(area(), Rect::new(29, 5, 3, 3), 0, 0));
    assert!(overlaps_cursor(area(), Rect::new(46, 11, 3, 3), 0, 0));
    assert!(!overlaps_cursor(area(), Rect::new(46, 12, 3, 3), 0, 0));
}

#[test]
fn centre_of_clickable_part() {
    assert_eq!(center(area(), 0, 0), (39, 8));
    assert_eq!(center(area(), 3, -2), (42, 6));
}

#[test]
fn centre_is_held_at_non_negative_coordinates() {
    assert_eq!(center(area(), -40, -10), (0, 0));
}

#[test]
fn middle_of_stage() {
    assert_eq!(stage_center(area(), 0, 0), (40, 12));
    assert_eq!(stage_center(area(), -50, -20), (-10, -8));
}

#[test]
fn signed_rect_queries() {
    let r = SignedRect { x: -3, y: 2, width: 5, height: 4 };
    assert!(r.contains(-3, 2));
    assert!(r.contains(1, 5));
    assert!(!r.contains(2, 5));
    assert!(!r.contains(-4, 2));
    assert_eq!(r.center_x(), -1);
    assert_eq!(r.center_y(), 4);
    assert!(r.intersects_rect(Rect::new(1, 5, 1, 1)));
    assert!(!r.intersects_rect(Rect::new(2, 5, 1, 1)));
}

#[test]
fn clamping_a_rect_into_an_area() {
    let a = Rect::new(10, 10, 20, 10);
    assert_eq!(clamp_rect_to_area(Rect::new(0, 0, 5, 5), a), Rect::new(10, 10, 5, 5));
    assert_eq!(clamp_rect_to_area(Rect::new(40, 40, 5, 5), a), Rect::new(25, 15, 5, 5));
    assert_eq!(clamp_rect_to_area(Rect::new(12, 11, 50, 50), a), Rect::new(10, 10, 20, 10));
}

#[test]
fn drawn_stage_stays_inside_the_area() {
    assert_eq!(rendered_stage_rect(area(), 0, 0), Rect::new(5, 4, 70, 16));
    assert_eq!(rendered_stage_rect(area(), -40, -10), Rect::new(0, 0, 70, 16));
    assert_eq!(rendered_stage_rect(area(), 20, 20), Rect::new(10, 8, 70, 16));
}

#[test]
fn glow_and_pulse() {
    assert_eq!(glow_phase(0), 0);
    assert_eq!(glow_phase(13), 3);
    assert_eq!(pulse_offset(0), 0);
    assert_eq!(pulse_offset(13), -13);
    assert_eq!(pulse_offset(u32::MAX), 1);
}

#[test]
fn ray_glyphs_by_direction() {
    assert_eq!(ray_glyph(0, 0, 0, 0), "✦");
    assert_eq!(ray_glyph(1, 1, 2, 3), "✹");
    assert_eq!(ray_glyph(0, 5, 5, 0), "│");
    assert_eq!(ray_glyph(5, 1, 6, 0), "─");
    assert_eq!(ray_glyph(4, 4, 8, 0), "\\");
    assert_eq!(ray_glyph(-4, -4, 8, 0), "\\");
    assert_eq!(ray_glyph(4, -4, 8, 0), "/");
    assert_eq!(ray_glyph(3, 6, 9, 0), "╱");
    assert_eq!(ray_glyph(3, -6, 9, 0), "╲");
    assert_eq!(ray_glyph(6, 3, 9, 0), "╲");
    assert_eq!(ray_glyph(-6, 3, 9, 0), "╱");
}

#[test]
fn ray_dots_drift_with_the_pulse() {
    assert_eq!(ray_glyph(10, 3, 13, 0), " ");
    assert_eq!(ray_glyph(10, 3, 13, 13), "·");
    assert_eq!(ray_glyph(10, 6, 16, u32::MAX), "·");
    assert_eq!(ray_glyph(10, 3, 13, u32::MAX), " ");
}

#[test]
fn ray_colours_by_distance_and_phase() {
    assert_eq!(ray_color(2, 1, 1, 0), Tint::White);
    assert_eq!(ray_color(2, 1, 1, 2), Tint::Indexed(230));
    assert_eq!(ray_color(2, 1, 1, 4), Tint::Indexed(229));
    assert_eq!(ray_color(5, 5, 0, 1), Tint::LightCyan);
    assert_eq!(ray_color(5, 5, 0, 7), Tint::Indexed(159));
    assert_eq!(ray_color(5, 5, 0, 8), Tint::Indexed(195));
    assert_eq!(ray_color(10, 5, 5, 0), Tint::Indexed(223));
    assert_eq!(ray_color(10, 5, 5, 2), Tint::Indexed(229));
    assert_eq!(ray_color(10, 5, 5, 3), Tint::Indexed(221));
    assert_eq!(ray_color(9, 3, 6, 0), Tint::Indexed(187));
    assert_eq!(ray_color(9, 3, 6, 2), Tint::Indexed(195));
    assert_eq!(ray_color(9, 3, 6, 4), Tint::Indexed(159));
    assert_eq!(ray_color(13, 10, 3, 0), Tint::Indexed(238));
}

#[test]
fn ray_metrics_measure_from_a_third_of_the_way_down() {
    assert_eq!(ray_metrics(area(), 40, 8), (0, 0, 0));
    assert_eq!(ray_metrics(area(), 45, 2), (5, -6, 11));
    assert_eq!(ray_metrics(area(), 0, 23), (-40, 15, 55));
}

#[test]
fn ray_field_covers_the_area() {
    let field = ray_field(area(), 0);
    assert_eq!(field.len(), 24);
    assert!(field.iter().all(|row| row.len() == 80));
    assert_eq!(field[8][40].glyph, "✦");
    assert_eq!(field[8][40].tint, Tint::White);
    assert_eq!(field[8][45].glyph, "─");
    assert_eq!(field[8][45].tint, Tint::LightCyan);
    assert_eq!(field[0][40].glyph, "│");
}

#[test]
fn bobbing_and_wings() {
    assert_eq!(reaction_shift(7), -1);
    assert_eq!(reaction_shift(6), 1);
    assert_eq!(reaction_shift(5), 0);
    assert_eq!(reaction_shift(4), -1);
    assert_eq!(reaction_shift(3), 1);
    assert_eq!(reaction_shift(1), -1);
    assert_eq!(reaction_shift(0), 0);
    assert_eq!(wing_gap(0), 0);
    assert_eq!(wing_gap(3), 2);
}

#[test]
fn mascot_at_rest() {
    let lines = mascot_lines(0, false);
    assert_eq!(lines.len(), 12);
    assert_eq!(
        lines[0],
        vec![
            Segment::Gap(8),
            Segment::Paint("▁▁▁▂▃▄▅▆▇██", Tint::Indexed(221)),
            Segment::Gap(6),
            Segment::Paint("██▇▆▅▄▃▂▁▁▁", Tint::Indexed(221)),
            Segment::Gap(8),
        ]
    );
    assert_eq!(lines[1][3], Segment::Paint("░▒▓█▓▒░", Tint::White));
    assert_eq!(lines[6][3], Segment::Paint("▄▄█████▄▄", Tint::Indexed(229)));
    assert_eq!(lines[9][1], Segment::Paint("▐█", Tint::LightRed));
}

#[test]
fn mascot_spreads_its_wings_when_touched() {
    let lines = mascot_lines(3, false);
    assert_eq!(lines[0][2], Segment::Gap(8));
    assert_eq!(lines[1][2], Segment::Gap(8));
    assert_eq!(lines[1][3], Segment::Paint("░▒▓█▓▒░", Tint::Indexed(230)));
    assert_eq!(lines[4][1], Segment::Gap(2));
    assert_eq!(lines[4][3], Segment::Gap(3));
}

#[test]
fn enraged_mascot_turns_red() {
    let lines = mascot_lines(0, true);
    assert_eq!(lines[1][3], Segment::Paint("░▒▓█▓▒░", Tint::Indexed(196)));
    assert_eq!(lines[6][3], Segment::Paint("▄▄█████▄▄", Tint::Indexed(203)));
    assert_eq!(lines[11][1], Segment::Paint("▐▀", Tint::Indexed(196)));
}

#[test]
fn resting_scene_has_no_halo() {
    let scene = render(area(), 0, 0, 0, 0, false);
    assert!(scene.halo.is_none());
    assert_eq!(scene.stage, Rect::new(5, 4, 70, 16));
    assert_eq!(scene.background.len(), 24);
    assert_eq!(scene.mascot, mascot_lines(0, false));
}

#[test]
fn touched_scene_bobs_and_shows_radiance() {
    let scene = render(area(), 0, 7, 0, 0, false);
    assert_eq!(scene.stage, Rect::new(5, 3, 70, 16));
    let halo = scene.halo.expect("halo while reacting");
    assert_eq!(halo.area, centered_by_ratatui(Rect::new(5, 4, 70, 16), 19, 6));
    assert_eq!(halo.lines.len(), 3);
    assert_eq!(halo.lines[1].text, "   ✦  RADIANCE  ✦   ");
    assert_eq!(halo.lines[1].tint, Some(Tint::Indexed(229)));
    assert_eq!(halo.lines[0].tint, Some(Tint::Indexed(230)));
}

#[test]
fn enraged_scene_shows_rage() {
    let scene = render(area(), 0, 0, 0, 0, true);
    let halo = scene.halo.expect("halo while enraged");
    assert_eq!(halo.lines[1].text, "    ✦  ENRAGED  ✦   ");
    assert_eq!(halo.lines[1].tint, Some(Tint::Indexed(196)));
    assert_eq!(halo.lines[2].tint, Some(Tint::LightRed));
    assert_eq!(halo.lines[0].text, "      ✦  ✦  ✦      ");
}

#[test]
fn bobbing_stage_is_kept_in_the_area() {
    let scene = render(area(), 0, 6, 0, 20, false);
    assert_eq!(scene.stage, Rect::new(5, 8, 70, 16));
}

#[test]
fn recentering_aim_lies_on_the_clickable_part() {
    for (ox, oy) in [(0, 0), (7, -3), (-4, 6), (20, 5)] {
        let (x, y) = center(area(), ox, oy);
        assert!(is_cursor_over(area(), x, y, ox, oy));
    }
}
