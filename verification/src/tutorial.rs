use vstd::prelude::*;
use vstd::string::*;
use crate::text::{StyledLine, decimal, spec_decimal, styled, plain};
use crate::tint::Tint;

verus! {

/// Hits on the emblem that enrage it; also the goal of the second lesson.
pub const ENRAGE_HIT_COUNT: u8 = 5;

/// How far (in cells, straight-line) the cursor must get from the enraged
/// emblem to finish the last lesson.
pub const ESCAPE_TUTORIAL_DISTANCE: i64 = 18;

/// The lessons, in order.
#[derive(Clone, Copy, Debug, PartialEq, Eq, Structural)]
pub enum TutorialStage {
    Movement,
    AnnoyBird,
    EscapeBird,
    Done,
}

/// The first lesson: which arrow keys have been tried.
#[derive(Clone, Copy, Debug, PartialEq, Eq, Structural)]
pub struct MovementTutorial {
    pub up: bool,
    pub down: bool,
    pub left: bool,
    pub right: bool,
}

/// Progress through the lessons.
#[derive(Clone, Copy, Debug, PartialEq, Eq, Structural)]
pub struct TutorialState {
    pub stage: TutorialStage,
    pub movement: MovementTutorial,
    pub bird_hits: u8,
}

/// The start of the first lesson.
pub open spec fn initial_tutorial() -> TutorialState {
    TutorialState {
        stage: TutorialStage::Movement,
        movement: MovementTutorial { up: false, down: false, left: false, right: false },
        bird_hits: 0,
    }
}

/// Position of a stage in the lesson order.
pub open spec fn stage_rank(s: TutorialStage) -> int {
    match s {
        TutorialStage::Movement => 0,
        TutorialStage::AnnoyBird => 1,
        TutorialStage::EscapeBird => 2,
        TutorialStage::Done => 3,
    }
}

/// All four arrow keys have been tried.
pub open spec fn spec_movement_complete(m: MovementTutorial) -> bool {
    m.up && m.down && m.left && m.right
}

/// Number of arrow keys tried.
pub open spec fn spec_count_complete(m: MovementTutorial) -> int {
    (if m.up { 1int } else { 0int }) + (if m.down { 1int } else { 0int }) + (if m.left {
        1int
    } else {
        0int
    }) + (if m.right { 1int } else { 0int })
}

/// The state after the movement lesson moves on once all keys are tried.
pub open spec fn spec_advance_if_ready(t: TutorialState) -> TutorialState {
    if t.stage == TutorialStage::Movement && spec_movement_complete(t.movement) {
        TutorialState { stage: TutorialStage::AnnoyBird, ..t }
    } else {
        t
    }
}

/// The state after `mark` records a key during the movement lesson; in other
/// lessons nothing changes.
pub open spec fn spec_mark(t: TutorialState, m: MovementTutorial) -> TutorialState {
    if t.stage == TutorialStage::Movement {
        spec_advance_if_ready(TutorialState { movement: m, ..t })
    } else {
        t
    }
}

/// The offset `(dx, dy)` is at least the escape distance long.
pub open spec fn spec_escaped(dx: int, dy: int) -> bool {
    dx * dx + dy * dy >= ESCAPE_TUTORIAL_DISTANCE * ESCAPE_TUTORIAL_DISTANCE
}

/// The state after observing the emblem: enraging it finishes the second
/// lesson, and escaping far enough finishes the third.
pub open spec fn spec_observe(t: TutorialState, enraged: bool, dx: int, dy: int) -> TutorialState {
    let t1 = if t.stage == TutorialStage::AnnoyBird && enraged {
        TutorialState { stage: TutorialStage::EscapeBird, ..t }
    } else {
        t
    };
    if t1.stage == TutorialStage::EscapeBird && spec_escaped(dx, dy) {
        TutorialState { stage: TutorialStage::Done, ..t1 }
    } else {
        t1
    }
}

/// The state after the emblem was hit for the `hit_count`-th time: during
/// the second lesson the count (capped at its goal) is shown as progress.
pub open spec fn spec_record_hit(t: TutorialState, hit_count: u8) -> TutorialState {
    if t.stage == TutorialStage::AnnoyBird {
        TutorialState {
            bird_hits: if hit_count < ENRAGE_HIT_COUNT { hit_count } else { ENRAGE_HIT_COUNT },
            ..t
        }
    } else {
        t
    }
}

/// The heading of a lesson.
pub open spec fn spec_lesson_title(stage: TutorialStage) -> Seq<char> {
    match stage {
        TutorialStage::Movement => "Movement"@,
        TutorialStage::AnnoyBird => "Bird"@,
        TutorialStage::EscapeBird => "Escape"@,
        TutorialStage::Done => ""@,
    }
}

/// A key drawn as done (`[x]`) or still to do (`(x)`).
pub open spec fn spec_keycap(label: Seq<char>, done: bool) -> Seq<char> {
    if done {
        seq!['['] + label + seq![']']
    } else {
        seq!['('] + label + seq![')']
    }
}

/// The line reporting `done` out of `total`.
pub open spec fn progress_text(done: nat, total: Seq<char>) -> Seq<char> {
    "Progress "@ + spec_decimal(done) + seq!['/'] + total
}

/// `r` is the text of the movement lesson with progress `m`.
pub open spec fn movement_lines_ok(r: Seq<StyledLine>, m: MovementTutorial) -> bool {
    &&& r.len() == 6
    &&& r[0].text@ == "Try every arrow key"@ && r[0].tint == Some(Tint::Indexed(229))
    &&& r[1].text@ == ""@ && r[1].tint is None
    &&& r[2].text@ == "    "@ + spec_keycap("↑"@, m.up) + "    "@ && r[2].tint is None
    &&& r[3].text@ == spec_keycap("←"@, m.left) + " "@ + spec_keycap("↓"@, m.down) + " "@
        + spec_keycap("→"@, m.right)
    &&& r[3].tint is None
    &&& r[4].text@ == ""@ && r[4].tint is None
    &&& r[5].text@ == progress_text(spec_count_complete(m) as nat, "4"@)
    &&& r[5].tint == Some(Tint::Indexed(187))
}

/// `r` is the text of the lesson `t` is at; none once all are done.
pub open spec fn lesson_lines_ok(r: Seq<StyledLine>, t: TutorialState) -> bool {
    &&& (t.stage == TutorialStage::Movement ==> movement_lines_ok(r, t.movement))
    &&& (t.stage == TutorialStage::AnnoyBird ==> {
        &&& r.len() == 6
        &&& r[0].text@ == "Try to annoy the bird"@ && r[0].tint == Some(Tint::Indexed(229))
        &&& r[1].text@ == ""@ && r[1].tint is None
        &&& r[2].text@ == "      [ Enter ]"@ && r[2].tint is None
        &&& r[3].text@ == ""@ && r[3].tint is None
        &&& r[4].text@ == "Press Enter on it a bunch"@ && r[4].tint == Some(Tint::Indexed(187))
        &&& r[5].text@ == progress_text(t.bird_hits as nat, spec_decimal(ENRAGE_HIT_COUNT as nat))
            && r[5].tint == Some(Tint::Indexed(159))
    })
    &&& (t.stage == TutorialStage::EscapeBird ==> {
        &&& r.len() == 7
        &&& r[0].text@ == "The bird is angry now"@ && r[0].tint == Some(Tint::Indexed(229))
        &&& r[1].text@ == ""@ && r[1].tint is None
        &&& r[2].text@ == "Gain some distance"@ && r[2].tint == Some(Tint::Indexed(187))
        &&& r[3].text@ == "it will hunt you"@ && r[3].tint == Some(Tint::Indexed(187))
        &&& r[4].text@ == "until it gets back at you"@ && r[4].tint == Some(Tint::Indexed(187))
        &&& r[5].text@ == ""@ && r[5].tint is None
        &&& r[6].text@ == "Keep flying"@ && r[6].tint == Some(Tint::Indexed(159))
    })
    &&& (t.stage == TutorialStage::Done ==> r.len() == 0)
}

impl MovementTutorial {
    /// No key tried yet.
    pub fn new() -> (r: MovementTutorial)
        ensures
            r == (MovementTutorial { up: false, down: false, left: false, right: false }),
    {
        MovementTutorial { up: false, down: false, left: false, right: false }
    }

    /// Records that up was tried.
    pub fn mark_up(&mut self)
        ensures
            *final(self) == (MovementTutorial { up: true, ..*old(self) }),
    {
        self.up = true;
    }

    /// Records that down was tried.
    pub fn mark_down(&mut self)
        ensures
            *final(self) == (MovementTutorial { down: true, ..*old(self) }),
    {
        self.down = true;
    }

    /// Records that left was tried.
    pub fn mark_left(&mut self)
        ensures
            *final(self) == (MovementTutorial { left: true, ..*old(self) }),
    {
        self.left = true;
    }

    /// Records that right was tried.
    pub fn mark_right(&mut self)
        ensures
            *final(self) == (MovementTutorial { right: true, ..*old(self) }),
    {
        self.right = true;
    }

    /// Whether all four keys were tried.
    pub fn complete(&self) -> (r: bool)
        ensures
            r == spec_movement_complete(*self),
    {
        self.up && self.down && self.left && self.right
    }

    /// How many of the four keys were tried.
    pub fn count_complete(&self) -> (r: usize)
        ensures
            r == spec_count_complete(*self),
    {
        (if self.up { 1 } else { 0 }) + (if self.down { 1 } else { 0 }) + (if self.left {
            1
        } else {
            0
        }) + (if self.right { 1 } else { 0 })
    }

    /// `label` framed as a key that is done (`[label]`) or not (`(label)`).
    pub fn keycap(&self, label: &'static str, done: bool) -> (r: String)
        ensures
            r@ == spec_keycap(label@, done),
    {
        proof {
            reveal_strlit("[");
            reveal_strlit("]");
            reveal_strlit("(");
            reveal_strlit(")");
        }
        if done {
            let mut s = "[".to_owned();
            s.append(label);
            s.append("]");
            s
        } else {
            let mut s = "(".to_owned();
            s.append(label);
            s.append(")");
            s
        }
    }

    /// The text of the movement lesson.
    pub fn render_lines(&self) -> (r: Vec<StyledLine>)
        ensures
            movement_lines_ok(r@, *self),
    {
        proof {
            reveal_strlit("/");
        }
        let mut lines: Vec<StyledLine> = Vec::new();
        lines.push(styled("Try every arrow key", Tint::Indexed(229)));
        lines.push(plain(""));
        let mut up_line = "    ".to_owned();
        up_line.append(self.keycap("↑", self.up).as_str());
        up_line.append("    ");
        lines.push(StyledLine { text: up_line, tint: None });
        let mut keys = self.keycap("←", self.left);
        keys.append(" ");
        keys.append(self.keycap("↓", self.down).as_str());
        keys.append(" ");
        keys.append(self.keycap("→", self.right).as_str());
        lines.push(StyledLine { text: keys, tint: None });
        lines.push(plain(""));
        let mut progress = "Progress ".to_owned();
        progress.append(decimal(self.count_complete() as u64).as_str());
        progress.append("/");
        progress.append("4");
        assert(progress@ =~= progress_text(spec_count_complete(*self) as nat, "4"@));
        lines.push(StyledLine { text: progress, tint: Some(Tint::Indexed(187)) });
        lines
    }
}

impl TutorialState {
    /// The start of the first lesson.
    pub fn new() -> (r: TutorialState)
        ensures
            r == initial_tutorial(),
    {
        TutorialState { stage: TutorialStage::Movement, movement: MovementTutorial::new(), bird_hits: 0 }
    }

    /// Finishes the movement lesson once all four keys were tried.
    pub fn advance_if_ready(&mut self)
        ensures
            *final(self) == spec_advance_if_ready(*old(self)),
    {
        if self.stage == TutorialStage::Movement && self.movement.complete() {
            self.stage = TutorialStage::AnnoyBird;
        }
    }

    /// Records that up was pressed.
    pub fn mark_up(&mut self)
        ensures
            *final(self) == spec_mark(*old(self), MovementTutorial { up: true, ..old(self).movement }),
    {
        if self.stage == TutorialStage::Movement {
            self.movement.mark_up();
            self.advance_if_ready();
        }
    }

    /// Records that down was pressed.
    pub fn mark_down(&mut self)
        ensures
            *final(self) == spec_mark(*old(self), MovementTutorial { down: true, ..old(self).movement }),
    {
        if self.stage == TutorialStage::Movement {
            self.movement.mark_down();
            self.advance_if_ready();
        }
    }

    /// Records that left was pressed.
    pub fn mark_left(&mut self)
        ensures
            *final(self) == spec_mark(*old(self), MovementTutorial { left: true, ..old(self).movement }),
    {
        if self.stage == TutorialStage::Movement {
            self.movement.mark_left();
            self.advance_if_ready();
        }
    }

    /// Records that right was pressed.
    pub fn mark_right(&mut self)
        ensures
            *final(self) == spec_mark(*old(self), MovementTutorial { right: true, ..old(self).movement }),
    {
        if self.stage == TutorialStage::Movement {
            self.movement.mark_right();
            self.advance_if_ready();
        }
    }

    /// During the second lesson, records the emblem's hit count (capped at
    /// the lesson's goal).
    pub fn record_emblem_hit(&mut self, hit_count: u8)
        ensures
            *final(self) == spec_record_hit(*old(self), hit_count),
    {
        if self.stage == TutorialStage::AnnoyBird {
            self.bird_hits = if hit_count < ENRAGE_HIT_COUNT { hit_count } else { ENRAGE_HIT_COUNT };
        }
    }

    /// Looks at the emblem: once it is enraged the second lesson is over, and
    /// once the cursor is `(offset_x, offset_y)` away from it with a length of
    /// at least the escape distance, the last lesson is over. (Lengths are
    /// compared through their squares, which for integer offsets decides the
    /// same as comparing rounded square roots.)
    pub fn observe_emblem(&mut self, enraged: bool, offset_x: i32, offset_y: i32)
        ensures
            *final(self) == spec_observe(*old(self), enraged, offset_x as int, offset_y as int),
    {
        if self.stage == TutorialStage::AnnoyBird && enraged {
            self.stage = TutorialStage::EscapeBird;
        }
        let dx = offset_x as i64;
        let dy = offset_y as i64;
        assert(0 <= dx * dx <= 0x4000_0000_0000_0000 && 0 <= dy * dy <= 0x4000_0000_0000_0000)
            by (nonlinear_arith)
            requires
                -0x8000_0000 <= dx <= 0x7fff_ffff,
                -0x8000_0000 <= dy <= 0x7fff_ffff,
        ;
        if self.stage == TutorialStage::EscapeBird && dx * dx >= ESCAPE_TUTORIAL_DISTANCE
            * ESCAPE_TUTORIAL_DISTANCE - dy * dy {
            self.stage = TutorialStage::Done;
        }
    }

    /// Whether every lesson is finished.
    pub fn complete(&self) -> (r: bool)
        ensures
            r == (self.stage == TutorialStage::Done),
    {
        self.stage == TutorialStage::Done
    }

    /// The heading of the current lesson.
    pub fn title(&self) -> (r: &'static str)
        ensures
            r@ == spec_lesson_title(self.stage),
    {
        match self.stage {
            TutorialStage::Movement => "Movement",
            TutorialStage::AnnoyBird => "Bird",
            TutorialStage::EscapeBird => "Escape",
            TutorialStage::Done => "",
        }
    }

    /// The text of the current lesson; none once all are done.
    pub fn render_lines(&self) -> (r: Vec<StyledLine>)
        ensures
            lesson_lines_ok(r@, *self),
    {
        match self.stage {
            TutorialStage::Movement => self.movement.render_lines(),
            TutorialStage::AnnoyBird => {
                proof {
                    reveal_strlit("/");
                }
                let mut lines: Vec<StyledLine> = Vec::new();
                lines.push(styled("Try to annoy the bird", Tint::Indexed(229)));
                lines.push(plain(""));
                lines.push(plain("      [ Enter ]"));
                lines.push(plain(""));
                lines.push(styled("Press Enter on it a bunch", Tint::Indexed(187)));
                let mut progress = "Progress ".to_owned();
                progress.append(decimal(self.bird_hits as u64).as_str());
                progress.append("/");
                progress.append(decimal(ENRAGE_HIT_COUNT as u64).as_str());
                assert(progress@ =~= progress_text(
                    self.bird_hits as nat,
                    spec_decimal(ENRAGE_HIT_COUNT as nat),
                ));
                lines.push(StyledLine { text: progress, tint: Some(Tint::Indexed(159)) });
                lines
            },
            TutorialStage::EscapeBird => {
                let mut lines: Vec<StyledLine> = Vec::new();
                lines.push(styled("The bird is angry now", Tint::Indexed(229)));
                lines.push(plain(""));
                lines.push(styled("Gain some distance", Tint::Indexed(187)));
                lines.push(styled("it will hunt you", Tint::Indexed(187)));
                lines.push(styled("until it gets back at you", Tint::Indexed(187)));
                lines.push(plain(""));
                lines.push(styled("Keep flying", Tint::Indexed(159)));
                lines
            },
            TutorialStage::Done => Vec::new(),
        }
    }
}

impl Default for MovementTutorial {
    /// No key tried yet.
    fn default() -> (r: MovementTutorial)
        ensures
            r == (MovementTutorial { up: false, down: false, left: false, right: false }),
    {
        MovementTutorial::new()
    }
}

impl Default for TutorialState {
    /// The start of the first lesson.
    fn default() -> (r: TutorialState)
        ensures
            r == initial_tutorial(),
    {
        TutorialState::new()
    }
}

} // verus!
