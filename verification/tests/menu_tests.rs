use pusillanipous::menu::{render_lines, tinted_spans, MenuState};
use pusillanipous::text::TintedGlyph;
use pusillanipous::tint::Tint;

#[test]
fn opens_over_seven_steps() {
    let mut menu = MenuState::Closed;
    assert!(!menu.visible());
    menu.open();
    assert_eq!(menu, MenuState::Opening(0));
    assert!(menu.visible());
    for step in 1..=6 {
        menu.advance();
        assert_eq!(menu, MenuState::Opening(step));
        assert_eq!(menu.progress(), step);
    }
    menu.advance();
    assert_eq!(menu, MenuState::Open);
    assert_eq!(menu.progress(), 6);
    menu.open();
    assert_eq!(menu, MenuState::Open);
}

#[test]
fn closes_over_six_steps() {
    let mut menu = MenuState::Open;
    menu.close();
    assert_eq!(menu, MenuState::Closing(6));
    for step in (1..=5).rev() {
        menu.advance();
        assert_eq!(menu, MenuState::Closing(step));
    }
    menu.advance();
    assert_eq!(menu, MenuState::Closed);
    menu.close();
    assert_eq!(menu, MenuState::Closed);
    menu.advance();
    assert_eq!(menu, MenuState::Closed);
}

#[test]
fn turning_around_midway() {
    let mut menu = MenuState::Opening(2);
    menu.close();
    assert_eq!(menu, MenuState::Closing(2));
    assert_eq!(menu.progress(), 2);
    menu.open();
    assert_eq!(menu, MenuState::Opening(4));
    let mut closing = MenuState::Closing(1);
    closing.open();
    assert_eq!(closing, MenuState::Opening(5));
}

#[test]
fn about_text() {
    let lines = render_lines();
    assert_eq!(lines.len(), 7);
    let text: String = lines[0].iter().map(|g| g.ch).collect();
    assert_eq!(text, "ratatui rust app");
    assert_eq!(lines[0][0], TintedGlyph { ch: 'r', tint: Some(Tint::Indexed(223)) });
    assert_eq!(lines[0][7], TintedGlyph { ch: ' ', tint: None });
    let hint: String = lines[6].iter().map(|g| g.ch).collect();
    assert_eq!(hint, "q to close");
    assert!(lines[5].is_empty());
    let credit: String = lines[4].iter().map(|g| g.ch).collect();
    assert_eq!(credit, "@homebrewmellow's prompts");
}

#[test]
fn spans_follow_characters() {
    let glyphs = tinted_spans("a b→");
    assert_eq!(
        glyphs,
        vec![
            TintedGlyph { ch: 'a', tint: Some(Tint::Indexed(223)) },
            TintedGlyph { ch: ' ', tint: None },
            TintedGlyph { ch: 'b', tint: Some(Tint::Indexed(223)) },
            TintedGlyph { ch: '→', tint: Some(Tint::Indexed(223)) },
        ]
    );
}
