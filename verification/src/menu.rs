use vstd::prelude::*;
use vstd::string::*;
use crate::text::TintedGlyph;
use crate::tint::Tint;

verus! {

/// Frames the about box takes to open or close.
pub const MENU_ANIMATION_STEPS: u16 = 6;

/// Palette colour of the about box's text.
pub const TEXT_FG: u8 = 223;

/// The about box: closed, growing, fully open, or shrinking; the number is
/// how far the animation has got (0 to [`MENU_ANIMATION_STEPS`]).
#[derive(Clone, Copy, Debug, PartialEq, Eq, Structural)]
pub enum MenuState {
    Closed,
    Opening(u16),
    Open,
    Closing(u16),
}

impl MenuState {
    /// Animation steps never exceed [`MENU_ANIMATION_STEPS`].
    pub open spec fn wf(self) -> bool {
        match self {
            MenuState::Opening(s) => s <= MENU_ANIMATION_STEPS,
            MenuState::Closing(s) => s <= MENU_ANIMATION_STEPS,
            _ => true,
        }
    }

    /// A shrinking box has not gone past its last step, so it can turn around.
    pub open spec fn can_open(self) -> bool {
        match self {
            MenuState::Closing(s) => s <= MENU_ANIMATION_STEPS,
            _ => true,
        }
    }

    /// How far open the box is drawn.
    pub open spec fn spec_progress(self) -> u16 {
        match self {
            MenuState::Closed => 0,
            MenuState::Opening(s) => s,
            MenuState::Open => MENU_ANIMATION_STEPS,
            MenuState::Closing(s) => s,
        }
    }

    /// The state after asking the box to open: a closed box starts growing, a
    /// shrinking one turns around from where it is.
    pub open spec fn spec_open(self) -> MenuState {
        match self {
            MenuState::Closed => MenuState::Opening(0),
            MenuState::Closing(s) => MenuState::Opening((MENU_ANIMATION_STEPS - s) as u16),
            other => other,
        }
    }

    /// The state after asking the box to close: an open box starts shrinking,
    /// a growing one turns around from where it is.
    pub open spec fn spec_close(self) -> MenuState {
        match self {
            MenuState::Open => MenuState::Closing(MENU_ANIMATION_STEPS),
            MenuState::Opening(s) => MenuState::Closing(s),
            other => other,
        }
    }

    /// The state one animation frame later.
    pub open spec fn spec_advance(self) -> MenuState {
        match self {
            MenuState::Opening(s) => if s >= MENU_ANIMATION_STEPS {
                MenuState::Open
            } else {
                MenuState::Opening((s + 1) as u16)
            },
            MenuState::Closing(s) => if s <= 1 {
                MenuState::Closed
            } else {
                MenuState::Closing((s - 1) as u16)
            },
            other => other,
        }
    }

    /// Asks the box to open.
    pub fn open(&mut self)
        requires
            old(self).can_open(),
        ensures
            *final(self) == old(self).spec_open(),
            old(self).wf() ==> final(self).wf(),
    {
        *self = match *self {
            MenuState::Closed => MenuState::Opening(0),
            MenuState::Closing(step) => MenuState::Opening(MENU_ANIMATION_STEPS - step),
            state => state,
        };
    }

    /// Asks the box to close.
    pub fn close(&mut self)
        ensures
            *final(self) == old(self).spec_close(),
            old(self).wf() ==> final(self).wf(),
    {
        *self = match *self {
            MenuState::Open => MenuState::Closing(MENU_ANIMATION_STEPS),
            MenuState::Opening(step) => MenuState::Closing(step),
            state => state,
        };
    }

    /// Moves the animation on by one frame.
    pub fn advance(&mut self)
        ensures
            *final(self) == old(self).spec_advance(),
            old(self).wf() ==> final(self).wf(),
    {
        *self = match *self {
            MenuState::Opening(step) => if step >= MENU_ANIMATION_STEPS {
                MenuState::Open
            } else {
                MenuState::Opening(step + 1)
            },
            MenuState::Closing(step) => if step <= 1 {
                MenuState::Closed
            } else {
                MenuState::Closing(step - 1)
            },
            state => state,
        };
    }

    /// How far open the box is drawn.
    pub fn progress(&self) -> (r: u16)
        ensures
            r == self.spec_progress(),
    {
        match *self {
            MenuState::Closed => 0,
            MenuState::Opening(step) => step,
            MenuState::Open => MENU_ANIMATION_STEPS,
            MenuState::Closing(step) => step,
        }
    }

    /// Whether any part of the box is shown.
    pub fn visible(&self) -> (r: bool)
        ensures
            r == !(*self is Closed),
    {
        match *self {
            MenuState::Closed => false,
            _ => true,
        }
    }
}

/// How one character of the about text is drawn: spaces plain, everything
/// else in the text colour.
pub open spec fn tinted_glyph(ch: char) -> TintedGlyph {
    TintedGlyph { ch, tint: if ch == ' ' { None } else { Some(Tint::Indexed(TEXT_FG)) } }
}

/// `text` drawn character by character.
pub open spec fn spec_tinted(text: Seq<char>) -> Seq<TintedGlyph> {
    Seq::new(text.len(), |i: int| tinted_glyph(text[i]))
}

/// The characters of `text`, each with the colour it is drawn in.
pub fn tinted_spans(text: &'static str) -> (r: Vec<TintedGlyph>)
    ensures
        r@ == spec_tinted(text@),
{
    let n = text.unicode_len();
    let mut glyphs: Vec<TintedGlyph> = Vec::new();
    let mut i: usize = 0;
    while i < n
        invariant
            n == text@.len(),
            i <= n,
            glyphs@ == spec_tinted(text@.take(i as int)),
        decreases n - i,
    {
        let ch = text.get_char(i);
        let glyph = if ch == ' ' {
            TintedGlyph { ch, tint: None }
        } else {
            TintedGlyph { ch, tint: Some(Tint::Indexed(TEXT_FG)) }
        };
        glyphs.push(glyph);
        assert(glyphs@ =~= spec_tinted(text@.take(i + 1)));
        i = i + 1;
    }
    assert(text@.take(n as int) =~= text@);
    glyphs
}

/// A line of the about text.
pub fn tinted_text(text: &'static str) -> (r: Vec<TintedGlyph>)
    ensures
        r@ == spec_tinted(text@),
{
    tinted_spans(text)
}

/// `r` holds the lines of the about box.
pub open spec fn about_lines_ok(r: Seq<Vec<TintedGlyph>>) -> bool {
    &&& r.len() == 7
    &&& r[0]@ == spec_tinted("ratatui rust app"@)
    &&& r[1]@ == spec_tinted("made with Codex"@)
    &&& r[2]@ == spec_tinted("by OpenAI"@)
    &&& r[3]@ == spec_tinted("guided by"@)
    &&& r[4]@ == spec_tinted("@homebrewmellow's prompts"@)
    &&& r[5]@.len() == 0
    &&& r[6]@ == spec_tinted("q to close"@)
}

/// The lines of the about box; the empty one separates the credits from the
/// hint.
pub fn render_lines() -> (r: Vec<Vec<TintedGlyph>>)
    ensures
        about_lines_ok(r@),
{
    let mut lines: Vec<Vec<TintedGlyph>> = Vec::new();
    lines.push(tinted_text("ratatui rust app"));
    lines.push(tinted_text("made with Codex"));
    lines.push(tinted_text("by OpenAI"));
    lines.push(tinted_text("guided by"));
    lines.push(tinted_text("@homebrewmellow's prompts"));
    lines.push(Vec::new());
    lines.push(tinted_text("q to close"));
    lines
}

} // verus!
