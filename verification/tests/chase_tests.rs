use pusillanipous::chase::{
    clamp_step, EmblemState, ResetProgress, ResetSeed, EMBLEM_GRACE_TICKS,
};
use pusillanipous::geometry::Rect;

fn area() -> Rect {
    Rect::new(0, 0, 80, 24)
}

fn enraged_after_grace() -> EmblemState {
    let mut e = EmblemState::new();
    for _ in 0..5 {
        e.register_hit();
    }
    for _ in 0..EMBLEM_GRACE_TICKS {
        assert!(e.tick(area(), 0, 0, ResetProgress::Settled));
    }
    e
}

#[test]
fn new_emblem_is_calm_and_at_rest() {
    let e = EmblemState::new();
    assert_eq!(e.offset_x, 0);
    assert_eq!(e.offset_y, 0);
    assert_eq!(e.hit_count, 0);
    assert!(!e.enraged);
    assert_eq!(e.grace_ticks, 0);
    assert_eq!(e.reset_motion, None);
    assert_eq!(EmblemState::default(), e);
}

#[test]
fn fifth_hit_enrages_with_grace() {
    let mut e = EmblemState::new();
    for _ in 0..4 {
        e.register_hit();
    }
    assert_eq!(e.hit_count, 4);
    assert!(!e.enraged);
    assert!(!e.in_grace_period());
    e.register_hit();
    assert_eq!(e.hit_count, 5);
    assert!(e.enraged);
    assert_eq!(e.grace_ticks, 10);
    assert!(e.in_grace_period());
    e.register_hit();
    assert_eq!(e.hit_count, 6);
    assert_eq!(e.grace_ticks, 10);
}

#[test]
fn hit_count_saturates() {
    let mut e = EmblemState::new();
    e.hit_count = 255;
    e.enraged = true;
    e.register_hit();
    assert_eq!(e.hit_count, 255);
}

#[test]
fn calm_emblem_does_not_move() {
    let mut e = EmblemState::new();
    assert!(!e.tick(area(), 70, 20, ResetProgress::Settled));
    assert_eq!(e, EmblemState::new());
}

#[test]
fn grace_period_counts_down() {
    let mut e = EmblemState::new();
    for _ in 0..5 {
        e.register_hit();
    }
    assert!(e.tick(area(), 70, 20, ResetProgress::Settled));
    assert_eq!(e.grace_ticks, 9);
    assert_eq!((e.offset_x, e.offset_y), (0, 0));
}

#[test]
fn chase_moves_toward_the_cursor_by_bounded_steps() {
    let mut e = enraged_after_grace();
    assert!(!e.in_grace_period());
    assert!(e.tick(area(), 60, 20, ResetProgress::Settled));
    assert_eq!((e.offset_x, e.offset_y), (2, 1));
    assert!(e.tick(area(), 10, 2, ResetProgress::Settled));
    assert_eq!((e.offset_x, e.offset_y), (0, 0));
    assert!(e.tick(area(), 10, 2, ResetProgress::Settled));
    assert_eq!((e.offset_x, e.offset_y), (-2, -1));
}

#[test]
fn chase_takes_small_steps_when_close() {
    let mut e = enraged_after_grace();
    assert!(e.tick(area(), 41, 12, ResetProgress::Settled));
    assert_eq!((e.offset_x, e.offset_y), (1, 0));
}

#[test]
fn chase_stops_on_the_cursor() {
    let mut e = enraged_after_grace();
    assert!(!e.tick(area(), 40, 12, ResetProgress::Settled));
    assert_eq!((e.offset_x, e.offset_y), (0, 0));
}

#[test]
fn reset_calms_and_starts_the_way_home() {
    let mut e = enraged_after_grace();
    e.offset_x = 4;
    e.offset_y = -3;
    e.reset();
    assert_eq!(e.hit_count, 0);
    assert!(!e.enraged);
    assert_eq!(e.grace_ticks, 0);
    assert_eq!(e.reset_motion, Some(ResetSeed { start_x: 4, start_y: -3, steps: 0 }));
    assert!(e.is_resetting());
}

#[test]
fn reset_at_rest_has_nothing_to_do() {
    let mut e = enraged_after_grace();
    e.reset();
    assert_eq!(e.reset_motion, None);
    assert!(!e.is_resetting());
}

#[test]
fn spiral_home_steps_and_settles() {
    let mut e = EmblemState::new();
    e.offset_x = 4;
    e.offset_y = -3;
    e.reset();
    assert!(e.tick_reset(ResetProgress::At(2, -1)));
    assert_eq!((e.offset_x, e.offset_y), (2, -1));
    assert_eq!(e.reset_motion, Some(ResetSeed { start_x: 4, start_y: -3, steps: 1 }));
    assert!(!e.tick_reset(ResetProgress::Settled));
    assert_eq!((e.offset_x, e.offset_y), (0, 0));
    assert_eq!(e.reset_motion, None);
}

#[test]
fn spiral_reaching_rest_ends() {
    let mut e = EmblemState::new();
    e.offset_x = 1;
    e.reset();
    assert!(e.tick_reset(ResetProgress::At(0, 0)));
    assert_eq!(e.reset_motion, None);
}

#[test]
fn tick_reset_without_spiral_does_nothing() {
    let mut e = EmblemState::new();
    assert!(!e.tick_reset(ResetProgress::At(5, 5)));
    assert_eq!(e, EmblemState::new());
}

#[test]
fn spiral_takes_precedence_over_chase() {
    let mut e = enraged_after_grace();
    e.offset_x = 6;
    e.offset_y = 2;
    e.reset_motion = Some(ResetSeed { start_x: 6, start_y: 2, steps: 0 });
    assert!(e.tick(area(), 70, 20, ResetProgress::At(5, 2)));
    assert_eq!((e.offset_x, e.offset_y), (5, 2));
}

#[test]
fn step_limits() {
    assert_eq!(clamp_step(5, 2), 2);
    assert_eq!(clamp_step(-5, 2), -2);
    assert_eq!(clamp_step(1, 2), 1);
    assert_eq!(clamp_step(0, 1), 0);
    assert_eq!(clamp_step(i16::MIN, 2), -2);
}

#[test]
fn ticks_are_computable_in_a_normal_terminal() {
    let e = enraged_after_grace();
    assert!(e.tick_fits(area(), 60, 20, ResetProgress::Settled));
    assert!(EmblemState::new().tick_fits(area(), 0, 0, ResetProgress::Settled));
}

#[test]
fn ticks_near_the_coordinate_limit_are_flagged() {
    let mut e = enraged_after_grace();
    e.offset_x = i16::MAX - 20;
    assert!(!e.tick_fits(area(), 0, 0, ResetProgress::Settled));
}
