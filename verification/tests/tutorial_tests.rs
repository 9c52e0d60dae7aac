use pusillanipous::text::decimal;
use pusillanipous::tint::Tint;
use pusillanipous::tutorial::{MovementTutorial, TutorialStage, TutorialState};

#[test]
fn all_arrows_finish_the_movement_lesson() {
    let mut tutorial = TutorialState::default();
    assert_eq!(tutorial.title(), "Movement");
    tutorial.mark_up();
    tutorial.mark_down();
    tutorial.mark_left();
    assert_eq!(tutorial.stage, TutorialStage::Movement);
    assert_eq!(tutorial.movement.count_complete(), 3);
    tutorial.mark_left();
    assert_eq!(tutorial.movement.count_complete(), 3);
    tutorial.mark_right();
    assert_eq!(tutorial.stage, TutorialStage::AnnoyBird);
    assert_eq!(tutorial.title(), "Bird");
    assert!(!tutorial.complete());
}

#[test]
fn movement_lines_show_keys_and_progress() {
    let mut movement = MovementTutorial::default();
    movement.mark_up();
    let lines = movement.render_lines();
    assert_eq!(lines.len(), 6);
    assert_eq!(lines[0].text, "Try every arrow key");
    assert_eq!(lines[0].tint, Some(Tint::Indexed(229)));
    assert_eq!(lines[1].text, "");
    assert_eq!(lines[2].text, "    [↑]    ");
    assert_eq!(lines[3].text, "(←) (↓) (→)");
    assert_eq!(lines[5].text, "Progress 1/4");
    assert_eq!(lines[5].tint, Some(Tint::Indexed(187)));
    assert_eq!(movement.keycap("x", true), "[x]");
    assert_eq!(movement.keycap("x", false), "(x)");
}

#[test]
fn bird_lesson_counts_hits_up_to_goal() {
    let mut tutorial = TutorialState::default();
    tutorial.record_emblem_hit(3);
    assert_eq!(tutorial.bird_hits, 0);
    tutorial.mark_up();
    tutorial.mark_down();
    tutorial.mark_left();
    tutorial.mark_right();
    tutorial.record_emblem_hit(3);
    assert_eq!(tutorial.bird_hits, 3);
    let lines = tutorial.render_lines();
    assert_eq!(lines[0].text, "Try to annoy the bird");
    assert_eq!(lines[2].text, "      [ Enter ]");
    assert_eq!(lines[4].text, "Press Enter on it a bunch");
    assert_eq!(lines[5].text, "Progress 3/5");
    assert_eq!(lines[5].tint, Some(Tint::Indexed(159)));
    tutorial.record_emblem_hit(9);
    assert_eq!(tutorial.bird_hits, 5);
}

#[test]
fn escaping_far_enough_finishes() {
    let mut tutorial = TutorialState::default();
    tutorial.mark_up();
    tutorial.mark_down();
    tutorial.mark_left();
    tutorial.mark_right();
    tutorial.observe_emblem(false, 100, 100);
    assert_eq!(tutorial.stage, TutorialStage::AnnoyBird);
    tutorial.observe_emblem(true, 0, 0);
    assert_eq!(tutorial.stage, TutorialStage::EscapeBird);
    assert_eq!(tutorial.title(), "Escape");
    assert_eq!(tutorial.render_lines().len(), 7);
    assert_eq!(tutorial.render_lines()[6].text, "Keep flying");
    tutorial.observe_emblem(true, 17, 5);
    assert_eq!(tutorial.stage, TutorialStage::EscapeBird);
    tutorial.observe_emblem(false, -18, 0);
    assert_eq!(tutorial.stage, TutorialStage::Done);
    assert!(tutorial.complete());
    assert_eq!(tutorial.title(), "");
    assert!(tutorial.render_lines().is_empty());
}

#[test]
fn escape_threshold_matches_float_distance() {
    for dx in -30i32..=30 {
        for dy in -30i32..=30 {
            let mut tutorial = TutorialState {
                stage: TutorialStage::EscapeBird,
                movement: MovementTutorial::default(),
                bird_hits: 5,
            };
            tutorial.observe_emblem(true, dx, dy);
            let distance = ((dx as f32) * (dx as f32) + (dy as f32) * (dy as f32)).sqrt();
            assert_eq!(tutorial.complete(), distance >= 18.0, "offset ({dx}, {dy})");
        }
    }
}

#[test]
fn decimal_text() {
    assert_eq!(decimal(0), "0");
    assert_eq!(decimal(7), "7");
    assert_eq!(decimal(1234), "1234");
    assert_eq!(decimal(u64::MAX), "18446744073709551615");
}
