use vstd::prelude::*;
use crate::cursor::{wrap16, apply_delta, spec_apply_delta};
use crate::geometry::{Rect, clamp_u16, clamp_i16, clamp_int, min_int, max_int, sat_sub, COORD_MAX};
use crate::layout::{box_in_area, center_rows, center_columns, centered_rect, spec_centered_box};
use crate::text::{StyledLine, styled};
use crate::tint::Tint;

verus! {

/// Width of the emblem's stage in cells.
pub const STAGE_WIDTH: u16 = 70;

/// Height of the emblem's stage in cells.
pub const STAGE_HEIGHT: u16 = 16;

/// Width of the part of the stage that reacts to the cursor.
pub const CLICKABLE_WIDTH: u16 = 17;

/// Height of the part of the stage that reacts to the cursor.
pub const CLICKABLE_HEIGHT: u16 = 7;

/// Width of the halo drawn around the orb when the emblem is stirred.
pub const ORB_WIDTH: u16 = 19;

/// Height of the band the halo is centred in.
pub const ORB_HEIGHT: u16 = 6;

/// Ray patterns repeat every this many cells along the diagonals.
pub const RAY_DOT_PERIOD: i32 = 17;

/// `v` is a signed 16-bit number.
pub open spec fn in_i16(v: int) -> bool {
    i16::MIN <= v <= i16::MAX
}

/// `v` is a signed 32-bit number.
pub open spec fn in_i32(v: int) -> bool {
    i32::MIN <= v <= i32::MAX
}

/// `v` read as a signed 32-bit number.
pub open spec fn wrap32(v: u32) -> int {
    if v < 0x8000_0000 { v as int } else { v - 0x1_0000_0000 }
}

/// Absolute value.
pub open spec fn abs(v: int) -> int {
    if v < 0 { -v } else { v }
}

/// Half of `v`, rounded toward zero.
pub open spec fn half(v: int) -> int {
    if v >= 0 { v / 2 } else { -((-v) / 2) }
}

/// A rectangle whose corner and size may be negative.
#[derive(Clone, Copy, Debug, PartialEq, Eq, Structural)]
pub struct SignedRect {
    pub x: i16,
    pub y: i16,
    pub width: i16,
    pub height: i16,
}

/// `(x, y)` lies inside `r` (its right and bottom edges excluded).
pub open spec fn spec_contains(r: SignedRect, x: int, y: int) -> bool {
    x >= r.x && x < r.x + r.width && y >= r.y && y < r.y + r.height
}

/// The sums that [`SignedRect::contains`] computes, evaluating left to right
/// and stopping at the first false test, fit in signed 16-bit arithmetic.
pub open spec fn contains_fits(r: SignedRect, x: int, y: int) -> bool {
    x >= r.x ==> (in_i16(r.x + r.width) && ((x < r.x + r.width && y >= r.y) ==> in_i16(r.y + r.height)))
}

/// `r` and the cell rectangle `other` (its fields read as signed 16-bit
/// numbers) overlap.
pub open spec fn spec_intersects(r: SignedRect, other: Rect) -> bool {
    let ox = wrap16(other.x);
    let oy = wrap16(other.y);
    let ow = wrap16(other.width);
    let oh = wrap16(other.height);
    r.x < ox + ow && r.x + r.width > ox && r.y < oy + oh && r.y + r.height > oy
}

/// The sums that [`SignedRect::intersects_rect`] computes, evaluating left to
/// right and stopping at the first false test, fit in signed 16-bit
/// arithmetic.
pub open spec fn intersects_fits(r: SignedRect, other: Rect) -> bool {
    let ox = wrap16(other.x);
    let oy = wrap16(other.y);
    let ow = wrap16(other.width);
    let oh = wrap16(other.height);
    in_i16(ox + ow) && (r.x < ox + ow ==> (in_i16(r.x + r.width) && (r.x + r.width > ox ==> (in_i16(
        oy + oh,
    ) && (r.y < oy + oh ==> in_i16(r.y + r.height))))))
}

/// `v` as a signed 16-bit number (two's complement).
pub fn as_i16(v: u16) -> (r: i16)
    ensures
        r == wrap16(v),
{
    if v < 32768 {
        v as i16
    } else {
        (v as i32 - 65536) as i16
    }
}

impl SignedRect {
    /// Whether `(x, y)` lies inside the rectangle.
    pub fn contains(&self, x: i16, y: i16) -> (r: bool)
        requires
            contains_fits(*self, x as int, y as int),
        ensures
            r == spec_contains(*self, x as int, y as int),
    {
        x >= self.x && x < self.x + self.width && y >= self.y && y < self.y + self.height
    }

    /// Middle column (half the width, rounded toward zero, right of the left edge).
    pub fn center_x(&self) -> (r: i16)
        requires
            in_i16(self.x + half(self.width as int)),
        ensures
            r == self.x + half(self.width as int),
    {
        let w = self.width as i32;
        let h: i32 = if w >= 0 { w / 2 } else { 0 - (0 - w) / 2 };
        (self.x as i32 + h) as i16
    }

    /// Middle row (half the height, rounded toward zero, below the top edge).
    pub fn center_y(&self) -> (r: i16)
        requires
            in_i16(self.y + half(self.height as int)),
        ensures
            r == self.y + half(self.height as int),
    {
        let h = self.height as i32;
        let half_h: i32 = if h >= 0 { h / 2 } else { 0 - (0 - h) / 2 };
        (self.y as i32 + half_h) as i16
    }

    /// Whether the rectangle overlaps the cell rectangle `rect`.
    pub fn intersects_rect(&self, rect: Rect) -> (r: bool)
        requires
            intersects_fits(*self, rect),
        ensures
            r == spec_intersects(*self, rect),
    {
        let other = SignedRect {
            x: as_i16(rect.x),
            y: as_i16(rect.y),
            width: as_i16(rect.width),
            height: as_i16(rect.height),
        };
        self.x < other.x + other.width && self.x + self.width > other.x && self.y < other.y
            + other.height && self.y + self.height > other.y
    }
}

/// Where the stage sits in `area`: centred, first along the rows, then along
/// the columns.
pub open spec fn spec_stage_rect(area: Rect) -> Rect {
    spec_centered_box(area, STAGE_WIDTH, STAGE_HEIGHT)
}

/// Where the stage sits in `area` when the emblem is at rest.
pub fn stage_rect(area: Rect) -> (r: Rect)
    ensures
        r == spec_stage_rect(area),
        box_in_area(r, area, STAGE_WIDTH, STAGE_HEIGHT),
{
    let outer = center_rows(area, STAGE_HEIGHT);
    center_columns(outer, STAGE_WIDTH)
}

/// Top-left corner of the stage `stage` moved by the emblem's offset.
pub open spec fn spec_origin(stage: Rect, offset_x: int, offset_y: int) -> (int, int) {
    (wrap16(stage.x) + offset_x, wrap16(stage.y) + offset_y)
}

/// The moved corner is a pair of signed 16-bit numbers.
pub open spec fn origin_fits(stage: Rect, offset_x: int, offset_y: int) -> bool {
    in_i16(spec_origin(stage, offset_x, offset_y).0) && in_i16(spec_origin(stage, offset_x, offset_y).1)
}

/// The part of the moved stage that reacts to the cursor: centred
/// horizontally, one row below the top.
pub open spec fn spec_clickable(stage: Rect, offset_x: int, offset_y: int) -> SignedRect {
    let o = spec_origin(stage, offset_x, offset_y);
    SignedRect {
        x: (o.0 + (STAGE_WIDTH - CLICKABLE_WIDTH) / 2) as i16,
        y: (o.1 + 1) as i16,
        width: CLICKABLE_WIDTH as i16,
        height: CLICKABLE_HEIGHT as i16,
    }
}

/// The reactive part's corner is a pair of signed 16-bit numbers.
pub open spec fn clickable_fits(stage: Rect, offset_x: int, offset_y: int) -> bool {
    let o = spec_origin(stage, offset_x, offset_y);
    origin_fits(stage, offset_x, offset_y) && in_i16(o.0 + (STAGE_WIDTH - CLICKABLE_WIDTH) / 2)
        && in_i16(o.1 + 1)
}

/// The reactive part's middle cell can be computed.
pub open spec fn center_fits(stage: Rect, offset_x: int, offset_y: int) -> bool {
    let c = spec_clickable(stage, offset_x, offset_y);
    clickable_fits(stage, offset_x, offset_y) && in_i16(c.x + half(c.width as int)) && in_i16(
        c.y + half(c.height as int),
    )
}

/// The reactive part's middle cell, clamped to non-negative coordinates.
pub open spec fn spec_clickable_center(stage: Rect, offset_x: int, offset_y: int) -> (u16, u16) {
    let c = spec_clickable(stage, offset_x, offset_y);
    (
        clamp_int(c.x + half(c.width as int), 0, i16::MAX as int) as u16,
        clamp_int(c.y + half(c.height as int), 0, i16::MAX as int) as u16,
    )
}

/// The moved stage's middle can be computed.
pub open spec fn stage_center_fits(stage: Rect, offset_x: int, offset_y: int) -> bool {
    let o = spec_origin(stage, offset_x, offset_y);
    origin_fits(stage, offset_x, offset_y) && in_i16(o.0 + STAGE_WIDTH / 2) && in_i16(
        o.1 + STAGE_HEIGHT / 2,
    )
}

/// Middle of the moved stage.
pub open spec fn spec_stage_center(stage: Rect, offset_x: int, offset_y: int) -> (int, int) {
    let o = spec_origin(stage, offset_x, offset_y);
    (o.0 + STAGE_WIDTH / 2, o.1 + STAGE_HEIGHT / 2)
}

/// Top-left corner of the stage in `area` moved by the emblem's offset.
pub fn logical_stage_origin(area: Rect, offset_x: i16, offset_y: i16) -> (r: (i16, i16))
    requires
        origin_fits(spec_stage_rect(area), offset_x as int, offset_y as int),
    ensures
        r.0 == spec_origin(spec_stage_rect(area), offset_x as int, offset_y as int).0,
        r.1 == spec_origin(spec_stage_rect(area), offset_x as int, offset_y as int).1,
{
    let stage = stage_rect(area);
    (as_i16(stage.x) + offset_x, as_i16(stage.y) + offset_y)
}

/// The part of the stage in `area`, moved by the emblem's offset, that reacts
/// to the cursor.
pub fn logical_clickable_rect(area: Rect, offset_x: i16, offset_y: i16) -> (r: SignedRect)
    requires
        clickable_fits(spec_stage_rect(area), offset_x as int, offset_y as int),
    ensures
        r == spec_clickable(spec_stage_rect(area), offset_x as int, offset_y as int),
{
    let stage = logical_stage_origin(area, offset_x, offset_y);
    let clickable_width: u16 = CLICKABLE_WIDTH;
    let clickable_height: u16 = CLICKABLE_HEIGHT;
    SignedRect {
        x: stage.0 + (STAGE_WIDTH.saturating_sub(clickable_width) / 2) as i16,
        y: stage.1 + 1,
        width: clickable_width as i16,
        height: clickable_height as i16,
    }
}

/// Whether the clickable test for cell `(x, y)` against the moved `stage`
/// can be computed.
pub open spec fn cursor_over_fits(stage: Rect, x: u16, y: u16, offset_x: int, offset_y: int) -> bool {
    clickable_fits(stage, offset_x, offset_y) && contains_fits(
        spec_clickable(stage, offset_x, offset_y),
        wrap16(x),
        wrap16(y),
    )
}

/// Whether the overlap test for `cursor` against the moved `stage` can be
/// computed.
pub open spec fn overlap_fits(stage: Rect, cursor: Rect, offset_x: int, offset_y: int) -> bool {
    clickable_fits(stage, offset_x, offset_y) && intersects_fits(
        spec_clickable(stage, offset_x, offset_y),
        cursor,
    )
}

/// Whether cell `(x, y)` is on the reactive part of the emblem in `area`,
/// moved by its offset.
pub fn is_cursor_over(area: Rect, x: u16, y: u16, offset_x: i16, offset_y: i16) -> (r: bool)
    requires
        cursor_over_fits(spec_stage_rect(area), x, y, offset_x as int, offset_y as int),
    ensures
        r == spec_contains(
            spec_clickable(spec_stage_rect(area), offset_x as int, offset_y as int),
            wrap16(x),
            wrap16(y),
        ),
{
    let clickable = logical_clickable_rect(area, offset_x, offset_y);
    clickable.contains(as_i16(x), as_i16(y))
}

/// Whether the cell rectangle `cursor` overlaps the reactive part of the
/// emblem in `area`, moved by its offset.
pub fn overlaps_cursor(area: Rect, cursor: Rect, offset_x: i16, offset_y: i16) -> (r: bool)
    requires
        overlap_fits(spec_stage_rect(area), cursor, offset_x as int, offset_y as int),
    ensures
        r == spec_intersects(
            spec_clickable(spec_stage_rect(area), offset_x as int, offset_y as int),
            cursor,
        ),
{
    let clickable = logical_clickable_rect(area, offset_x, offset_y);
    clickable.intersects_rect(cursor)
}

/// The cell a recentering cursor aims its middle at: the middle of the
/// emblem's reactive part in `area`, moved by its offset, held at
/// non-negative coordinates.
pub fn center(area: Rect, offset_x: i16, offset_y: i16) -> (r: (u16, u16))
    requires
        center_fits(spec_stage_rect(area), offset_x as int, offset_y as int),
    ensures
        r == spec_clickable_center(spec_stage_rect(area), offset_x as int, offset_y as int),
{
    let clickable = logical_clickable_rect(area, offset_x, offset_y);
    (
        clamp_i16(clickable.center_x(), 0, i16::MAX) as u16,
        clamp_i16(clickable.center_y(), 0, i16::MAX) as u16,
    )
}

/// Middle of the emblem's stage in `area`, moved by its offset.
pub fn stage_center(area: Rect, offset_x: i16, offset_y: i16) -> (r: (i16, i16))
    requires
        stage_center_fits(spec_stage_rect(area), offset_x as int, offset_y as int),
    ensures
        r.0 == spec_stage_center(spec_stage_rect(area), offset_x as int, offset_y as int).0,
        r.1 == spec_stage_center(spec_stage_rect(area), offset_x as int, offset_y as int).1,
{
    let (x, y) = logical_stage_origin(area, offset_x, offset_y);
    (x + STAGE_WIDTH as i16 / 2, y + STAGE_HEIGHT as i16 / 2)
}

/// Whether [`center`] can be computed when the stage sits at `stage`.
pub fn center_fits_at(stage: Rect, offset_x: i16, offset_y: i16) -> (r: bool)
    ensures
        r == center_fits(stage, offset_x as int, offset_y as int),
{
    let ox = as_i16(stage.x) as i32 + offset_x as i32;
    let oy = as_i16(stage.y) as i32 + offset_y as i32;
    let cx = ox + 26;
    let cy = oy + 1;
    in_range16(ox) && in_range16(oy) && in_range16(cx) && in_range16(cy) && in_range16(cx + 8)
        && in_range16(cy + 3)
}

/// Whether the moved corner of `stage` is a pair of signed 16-bit numbers.
pub fn origin_fits_at(stage: Rect, offset_x: i16, offset_y: i16) -> (r: bool)
    ensures
        r == origin_fits(stage, offset_x as int, offset_y as int),
{
    let ox = as_i16(stage.x) as i32 + offset_x as i32;
    let oy = as_i16(stage.y) as i32 + offset_y as i32;
    in_range16(ox) && in_range16(oy)
}

/// Whether [`stage_center`] can be computed when the stage sits at `stage`.
pub fn stage_center_fits_at(stage: Rect, offset_x: i16, offset_y: i16) -> (r: bool)
    ensures
        r == stage_center_fits(stage, offset_x as int, offset_y as int),
{
    let ox = as_i16(stage.x) as i32 + offset_x as i32;
    let oy = as_i16(stage.y) as i32 + offset_y as i32;
    in_range16(ox) && in_range16(oy) && in_range16(ox + 35) && in_range16(oy + 8)
}

/// Whether [`is_cursor_over`] can be computed when the stage sits at
/// `stage`.
pub fn cursor_over_fits_at(stage: Rect, x: u16, y: u16, offset_x: i16, offset_y: i16) -> (r: bool)
    ensures
        r == cursor_over_fits(stage, x, y, offset_x as int, offset_y as int),
{
    let ox = as_i16(stage.x) as i32 + offset_x as i32;
    let oy = as_i16(stage.y) as i32 + offset_y as i32;
    let cx = ox + 26;
    let cy = oy + 1;
    if !(in_range16(ox) && in_range16(oy) && in_range16(cx) && in_range16(cy)) {
        return false;
    }
    let px = as_i16(x) as i32;
    let py = as_i16(y) as i32;
    if px >= cx {
        if !in_range16(cx + 17) {
            return false;
        }
        if px < cx + 17 && py >= cy {
            return in_range16(cy + 7);
        }
    }
    true
}

/// Whether [`overlaps_cursor`] can be computed when the stage sits at
/// `stage`.
pub fn overlap_fits_at(stage: Rect, cursor: Rect, offset_x: i16, offset_y: i16) -> (r: bool)
    ensures
        r == overlap_fits(stage, cursor, offset_x as int, offset_y as int),
{
    let ox = as_i16(stage.x) as i32 + offset_x as i32;
    let oy = as_i16(stage.y) as i32 + offset_y as i32;
    let cx = ox + 26;
    let cy = oy + 1;
    if !(in_range16(ox) && in_range16(oy) && in_range16(cx) && in_range16(cy)) {
        return false;
    }
    let rx = as_i16(cursor.x) as i32;
    let ry = as_i16(cursor.y) as i32;
    let rw = as_i16(cursor.width) as i32;
    let rh = as_i16(cursor.height) as i32;
    if !in_range16(rx + rw) {
        return false;
    }
    if cx < rx + rw {
        if !in_range16(cx + 17) {
            return false;
        }
        if cx + 17 > rx {
            if !in_range16(ry + rh) {
                return false;
            }
            if cy < ry + rh {
                return in_range16(cy + 7);
            }
        }
    }
    true
}

/// `v` is a signed 16-bit number.
fn in_range16(v: i32) -> (r: bool)
    ensures
        r == in_i16(v as int),
{
    i16::MIN as i32 <= v && v <= i16::MAX as i32
}

/// `rect` moved and trimmed so that it lies within `area` wherever it can.
pub open spec fn spec_clamp_rect_to_area(rect: Rect, area: Rect) -> Rect {
    let max_x = min_int(area.x + sat_sub(area.width as int, rect.width as int), COORD_MAX as int);
    let max_y = min_int(area.y + sat_sub(area.height as int, rect.height as int), COORD_MAX as int);
    Rect::spec_new(
        clamp_int(rect.x as int, area.x as int, max_x) as u16,
        clamp_int(rect.y as int, area.y as int, max_y) as u16,
        min_int(rect.width as int, area.width as int) as u16,
        min_int(rect.height as int, area.height as int) as u16,
    )
}

/// Moves `rect` into `area` as far as it fits and trims it to `area`'s size.
pub fn clamp_rect_to_area(rect: Rect, area: Rect) -> (r: Rect)
    ensures
        r == spec_clamp_rect_to_area(rect, area),
{
    let max_x = area.x.saturating_add(area.width.saturating_sub(rect.width));
    let max_y = area.y.saturating_add(area.height.saturating_sub(rect.height));
    Rect::new(
        clamp_u16(rect.x, area.x, max_x),
        clamp_u16(rect.y, area.y, max_y),
        if rect.width < area.width { rect.width } else { area.width },
        if rect.height < area.height { rect.height } else { area.height },
    )
}

/// Where the stage in `area`, moved by the emblem's offset, is drawn: its
/// corner held at non-negative coordinates, then kept within `area`.
pub open spec fn spec_rendered_stage(area: Rect, offset_x: int, offset_y: int) -> Rect {
    let o = spec_origin(spec_stage_rect(area), offset_x, offset_y);
    spec_clamp_rect_to_area(
        Rect::spec_new(max_int(o.0, 0) as u16, max_int(o.1, 0) as u16, STAGE_WIDTH, STAGE_HEIGHT),
        area,
    )
}

/// Where the stage in `area`, moved by the emblem's offset, is drawn.
pub fn rendered_stage_rect(area: Rect, offset_x: i16, offset_y: i16) -> (r: Rect)
    requires
        origin_fits(spec_stage_rect(area), offset_x as int, offset_y as int),
    ensures
        r == spec_rendered_stage(area, offset_x as int, offset_y as int),
{
    let (x, y) = logical_stage_origin(area, offset_x, offset_y);
    let left: u16 = if x > 0 { x as u16 } else { 0 };
    let top: u16 = if y > 0 { y as u16 } else { 0 };
    clamp_rect_to_area(Rect::new(left, top, STAGE_WIDTH, STAGE_HEIGHT), area)
}

/// A piece of an emblem line: a run of blank cells, or text in a colour.
/// Both are drawn over the terminal's default background.
#[derive(Clone, Copy, Debug, PartialEq, Eq)]
pub enum Segment {
    Gap(usize),
    Paint(&'static str, Tint),
}

/// One cell of the ray field behind the emblem.
#[derive(Clone, Copy, Debug, PartialEq, Eq)]
pub struct RayCell {
    pub glyph: &'static str,
    pub tint: Tint,
}

/// The halo around the orb: three centred lines in `area`.
pub struct Halo {
    pub area: Rect,
    pub lines: Vec<StyledLine>,
}

/// Everything the emblem draws: the ray field filling the area, the halo when
/// the emblem is stirred, and the emblem's picture centred in `stage`.
pub struct EmblemScene {
    pub background: Vec<Vec<RayCell>>,
    pub halo: Option<Halo>,
    pub stage: Rect,
    pub mascot: Vec<Vec<Segment>>,
}

/// Brightness phase of the rays, cycling through five steps.
pub open spec fn spec_glow_phase(pulse: u32) -> u32 {
    (pulse % 5) as u32
}

/// Brightness phase of the rays, cycling through five steps.
pub fn glow_phase(pulse: u32) -> (r: u32)
    ensures
        r == spec_glow_phase(pulse),
{
    pulse % 5
}

/// How far the dotted ray pattern has drifted: the pulse read as a signed
/// number and negated.
pub fn pulse_offset(pulse: u32) -> (r: i32)
    requires
        pulse != 0x8000_0000,
    ensures
        r == -wrap32(pulse),
{
    if pulse < 0x8000_0000 {
        -(pulse as i32)
    } else {
        -((pulse as i64 - 0x1_0000_0000) as i32)
    }
}

/// Glyph of the ray field at offset `(dx, dy)` from its centre, `distance`
/// cells away (measured along the axes): a star in the middle, straight and
/// diagonal rays, steep and shallow rays, and drifting dots on a diagonal
/// grid elsewhere.
pub open spec fn spec_ray_glyph(dx: int, dy: int, distance: int, pulse: u32) -> Seq<char> {
    if distance < 3 {
        if spec_glow_phase(pulse) >= 3 { "✹"@ } else { "✦"@ }
    } else if abs(dx) <= 1 {
        "│"@
    } else if abs(dy) <= 1 {
        "─"@
    } else if abs(abs(dx) - abs(dy)) <= 1 {
        if (dx > 0) == (dy > 0) { "\\"@ } else { "/"@ }
    } else if abs(abs(dx) * 2 - abs(dy)) <= 1 {
        if dy >= 0 { "╱"@ } else { "╲"@ }
    } else if abs(abs(dy) * 2 - abs(dx)) <= 1 {
        if dx >= 0 { "╲"@ } else { "╱"@ }
    } else if (dx + dy - wrap32(pulse)) % RAY_DOT_PERIOD as int == 0 {
        "·"@
    } else {
        " "@
    }
}

/// The signed 32-bit arithmetic of [`ray_glyph`], evaluated test by test,
/// does not overflow.
pub open spec fn ray_glyph_fits(dx: int, dy: int, distance: int, pulse: u32) -> bool {
    distance < 3 || (dx != i32::MIN && (abs(dx) <= 1 || (dy != i32::MIN && (abs(dy) <= 1 || abs(
        abs(dx) - abs(dy),
    ) <= 1 || (in_i32(abs(dx) * 2) && (abs(abs(dx) * 2 - abs(dy)) <= 1 || (in_i32(abs(dy) * 2) && (
    abs(abs(dy) * 2 - abs(dx)) <= 1 || (pulse != 0x8000_0000 && in_i32(dx + dy) && in_i32(
        dx + dy - wrap32(pulse),
    ))))))))))
}

/// Colour of the ray field at offset `(dx, dy)`, `distance` cells from its
/// centre: bright near the middle and on the main rays, cycling with the
/// glow phase, dim elsewhere.
pub open spec fn spec_ray_color(distance: int, dx: int, dy: int, pulse: u32) -> Tint {
    let glow = spec_glow_phase(pulse);
    if distance < 4 {
        if glow <= 1 {
            Tint::White
        } else if glow == 2 {
            Tint::Indexed(230)
        } else {
            Tint::Indexed(229)
        }
    } else if distance < 8 {
        if glow <= 1 {
            Tint::LightCyan
        } else if glow == 2 {
            Tint::Indexed(159)
        } else {
            Tint::Indexed(195)
        }
    } else if abs(abs(dx) - abs(dy)) <= 1 || abs(dx) <= 1 || abs(dy) <= 1 {
        if glow <= 1 {
            Tint::Indexed(223)
        } else if glow == 2 {
            Tint::Indexed(229)
        } else {
            Tint::Indexed(221)
        }
    } else if abs(abs(dx) * 2 - abs(dy)) <= 1 || abs(abs(dy) * 2 - abs(dx)) <= 1 {
        if glow <= 1 {
            Tint::Indexed(187)
        } else if glow == 2 {
            Tint::Indexed(195)
        } else {
            Tint::Indexed(159)
        }
    } else {
        Tint::Indexed(238)
    }
}

/// The signed 32-bit arithmetic of [`ray_color`], evaluated test by test,
/// does not overflow.
pub open spec fn ray_color_fits(distance: int, dx: int, dy: int) -> bool {
    distance < 8 || (dx != i32::MIN && dy != i32::MIN && (abs(abs(dx) - abs(dy)) <= 1 || abs(dx) <= 1
        || abs(dy) <= 1 || (in_i32(abs(dx) * 2) && (abs(abs(dx) * 2 - abs(dy)) <= 1 || in_i32(
        abs(dy) * 2,
    )))))
}

/// Absolute value of a signed 32-bit number other than the smallest.
fn abs_i32(v: i32) -> (r: i32)
    requires
        v != i32::MIN,
    ensures
        r == abs(v as int),
{
    if v < 0 {
        -v
    } else {
        v
    }
}

/// Glyph of the ray field at offset `(dx, dy)` from its centre.
pub fn ray_glyph(dx: i32, dy: i32, distance: i32, pulse: u32) -> (r: &'static str)
    requires
        ray_glyph_fits(dx as int, dy as int, distance as int, pulse),
    ensures
        r@ == spec_ray_glyph(dx as int, dy as int, distance as int, pulse),
{
    let glow = glow_phase(pulse);

    if distance < 3 {
        if glow >= 3 {
            "✹"
        } else {
            "✦"
        }
    } else if abs_i32(dx) <= 1 {
        "│"
    } else if abs_i32(dy) <= 1 {
        "─"
    } else if abs_i32(abs_i32(dx) - abs_i32(dy)) <= 1 {
        if (dx > 0) == (dy > 0) {
            "\\"
        } else {
            "/"
        }
    } else if abs_i32(abs_i32(dx) * 2 - abs_i32(dy)) <= 1 {
        if dy >= 0 {
            "╱"
        } else {
            "╲"
        }
    } else if abs_i32(abs_i32(dy) * 2 - abs_i32(dx)) <= 1 {
        if dx >= 0 {
            "╲"
        } else {
            "╱"
        }
    } else {
        let shifted = dx + dy + pulse_offset(pulse);
        match shifted.checked_rem_euclid(RAY_DOT_PERIOD) {
            Some(rest) => if rest == 0 {
                "·"
            } else {
                " "
            },
            None => " ",
        }
    }
}

/// Colour of the ray field at offset `(dx, dy)`, `distance` cells from its
/// centre.
pub fn ray_color(distance: i32, dx: i32, dy: i32, pulse: u32) -> (r: Tint)
    requires
        ray_color_fits(distance as int, dx as int, dy as int),
    ensures
        r == spec_ray_color(distance as int, dx as int, dy as int, pulse),
{
    let glow = glow_phase(pulse);

    if distance < 4 {
        match glow {
            0 | 1 => Tint::White,
            2 => Tint::Indexed(230),
            _ => Tint::Indexed(229),
        }
    } else if distance < 8 {
        match glow {
            0 | 1 => Tint::LightCyan,
            2 => Tint::Indexed(159),
            _ => Tint::Indexed(195),
        }
    } else if abs_i32(abs_i32(dx) - abs_i32(dy)) <= 1 || abs_i32(dx) <= 1 || abs_i32(dy) <= 1 {
        match glow {
            0 | 1 => Tint::Indexed(223),
            2 => Tint::Indexed(229),
            _ => Tint::Indexed(221),
        }
    } else if abs_i32(abs_i32(dx) * 2 - abs_i32(dy)) <= 1 || abs_i32(abs_i32(dy) * 2 - abs_i32(dx))
        <= 1 {
        match glow {
            0 | 1 => Tint::Indexed(187),
            2 => Tint::Indexed(195),
            _ => Tint::Indexed(159),
        }
    } else {
        Tint::Indexed(238)
    }
}

/// Offset of cell `(x, y)` of `area` from the centre of the rays (half way
/// across, a third of the way down) and its distance along the axes.
pub open spec fn spec_ray_metrics(area: Rect, x: int, y: int) -> (int, int, int) {
    let dx = x - area.width / 2;
    let dy = y - area.height / 3;
    (dx, dy, abs(dx) + abs(dy))
}

/// The offset and distance of cell `(x, y)` can be computed in signed 32-bit
/// arithmetic.
pub open spec fn ray_metrics_fit(area: Rect, x: int, y: int) -> bool {
    let dx = x - area.width / 2;
    let dy = y - area.height / 3;
    in_i32(dx) && in_i32(dy) && dx != i32::MIN && dy != i32::MIN && in_i32(abs(dx) + abs(dy))
}

/// Offset of cell `(x, y)` of `area` from the centre of the rays and its
/// distance along the axes.
pub fn ray_metrics(area: Rect, x: i32, y: i32) -> (r: (i32, i32, i32))
    requires
        ray_metrics_fit(area, x as int, y as int),
    ensures
        r.0 == spec_ray_metrics(area, x as int, y as int).0,
        r.1 == spec_ray_metrics(area, x as int, y as int).1,
        r.2 == spec_ray_metrics(area, x as int, y as int).2,
{
    let center_x = (area.width / 2) as i32;
    let center_y = (area.height / 3) as i32;
    let dx = x - center_x;
    let dy = y - center_y;
    let distance = abs_i32(dx) + abs_i32(dy);
    (dx, dy, distance)
}

/// The cell of the ray field at column `x`, row `y` of `area`.
pub open spec fn ray_cell_ok(c: RayCell, area: Rect, x: int, y: int, pulse: u32) -> bool {
    let m = spec_ray_metrics(area, x, y);
    c.glyph@ == spec_ray_glyph(m.0, m.1, m.2, pulse) && c.tint == spec_ray_color(m.2, m.0, m.1, pulse)
}

/// `rows` is the ray field over `area` at `pulse`, row by row.
pub open spec fn ray_field_ok(rows: Seq<Vec<RayCell>>, area: Rect, pulse: u32) -> bool {
    &&& rows.len() == area.height
    &&& forall|y: int|
        0 <= y < area.height ==> #[trigger] rows[y]@.len() == area.width && forall|x: int|
            0 <= x < area.width ==> ray_cell_ok(#[trigger] rows[y]@[x], area, x, y, pulse)
}

/// Every cell of the ray field over `area` can be computed.
pub open spec fn ray_field_fits(area: Rect, pulse: u32) -> bool {
    forall|x: int, y: int|
        0 <= x < area.width && 0 <= y < area.height ==> {
            let m = #[trigger] spec_ray_metrics(area, x, y);
            ray_glyph_fits(m.0, m.1, m.2, pulse) && ray_color_fits(m.2, m.0, m.1)
        }
}

/// Ray fields of any area can be computed for a pulse below 2^30.
pub proof fn lemma_ray_field_fits(area: Rect, pulse: u32)
    requires
        pulse < 0x4000_0000,
    ensures
        ray_field_fits(area, pulse),
{
    assert forall|x: int, y: int| 0 <= x < area.width && 0 <= y < area.height implies {
        let m = #[trigger] spec_ray_metrics(area, x, y);
        ray_glyph_fits(m.0, m.1, m.2, pulse) && ray_color_fits(m.2, m.0, m.1)
    } by {
        let m = spec_ray_metrics(area, x, y);
        assert(-70000 < m.0 < 70000 && -70000 < m.1 < 70000);
    }
}

/// The ray field filling `area`, row by row.
pub fn ray_field(area: Rect, pulse: u32) -> (r: Vec<Vec<RayCell>>)
    requires
        ray_field_fits(area, pulse),
    ensures
        ray_field_ok(r@, area, pulse),
{
    let mut lines: Vec<Vec<RayCell>> = Vec::with_capacity(area.height as usize);
    let height = area.height as i32;
    let width = area.width as i32;
    let mut y: i32 = 0;
    while y < height
        invariant
            height == area.height,
            width == area.width,
            0 <= y <= height,
            lines@.len() == y,
            ray_field_fits(area, pulse),
            forall|yy: int|
                0 <= yy < y ==> #[trigger] lines@[yy]@.len() == area.width && forall|x: int|
                    0 <= x < area.width ==> ray_cell_ok(#[trigger] lines@[yy]@[x], area, x, yy, pulse),
        decreases height - y,
    {
        let mut spans: Vec<RayCell> = Vec::with_capacity(area.width as usize);
        let mut x: i32 = 0;
        while x < width
            invariant
                height == area.height,
                width == area.width,
                0 <= y < height,
                0 <= x <= width,
                spans@.len() == x,
                ray_field_fits(area, pulse),
                forall|xx: int|
                    0 <= xx < x ==> ray_cell_ok(#[trigger] spans@[xx], area, xx, y as int, pulse),
            decreases width - x,
        {
            let (dx, dy, distance) = ray_metrics(area, x, y);
            assert({
                let m = spec_ray_metrics(area, x as int, y as int);
                ray_glyph_fits(m.0, m.1, m.2, pulse) && ray_color_fits(m.2, m.0, m.1)
            });
            let glyph = ray_glyph(dx, dy, distance, pulse);
            let color = ray_color(distance, dx, dy, pulse);
            spans.push(RayCell { glyph, tint: color });
            x = x + 1;
        }
        lines.push(spans);
        y = y + 1;
    }
    lines
}

/// How far the emblem bobs at each step of its reaction to a touch.
pub open spec fn spec_reaction_shift(reaction_ticks: u8) -> i16 {
    if reaction_ticks == 7 || reaction_ticks == 4 || reaction_ticks == 1 {
        -1i16
    } else if reaction_ticks == 6 || reaction_ticks == 3 {
        1i16
    } else {
        0i16
    }
}

/// How far the emblem bobs at each step of its reaction to a touch: up,
/// down, still, in a repeating pattern.
pub fn reaction_shift(reaction_ticks: u8) -> (r: i16)
    ensures
        r == spec_reaction_shift(reaction_ticks),
{
    match reaction_ticks {
        7 | 4 | 1 => -1,
        6 | 3 => 1,
        _ => 0,
    }
}

/// How far the wings spread while the emblem reacts to a touch.
pub open spec fn spec_wing_gap(reaction_ticks: u8) -> u16 {
    if reaction_ticks > 0 { 2 } else { 0 }
}

/// How far the wings spread while the emblem reacts to a touch.
pub fn wing_gap(reaction_ticks: u8) -> (r: u16)
    ensures
        r == spec_wing_gap(reaction_ticks),
{
    if reaction_ticks > 0 {
        2
    } else {
        0
    }
}

/// Colour of the orb: pale while reacting, red when enraged, white at rest.
pub open spec fn orb_tint(reaction_ticks: u8, enraged: bool) -> Tint {
    if reaction_ticks > 0 {
        Tint::Indexed(230)
    } else if enraged {
        Tint::Indexed(196)
    } else {
        Tint::White
    }
}

/// Colour of the body: reddish when enraged.
pub open spec fn body_tint(enraged: bool) -> Tint {
    if enraged { Tint::Indexed(203) } else { Tint::Indexed(229) }
}

/// Colour of the legs: deep red when enraged.
pub open spec fn leg_tint(enraged: bool) -> Tint {
    if enraged { Tint::Indexed(196) } else { Tint::LightRed }
}

/// The emblem's picture, line by line: wings around an orb, a body, legs.
/// The wings spread by [`spec_wing_gap`] while it reacts.
pub open spec fn spec_mascot(reaction_ticks: u8, enraged: bool) -> Seq<Seq<Segment>> {
    let g = spec_wing_gap(reaction_ticks) as usize;
    let h = (g / 2) as usize;
    let orb = orb_tint(reaction_ticks, enraged);
    let body = body_tint(enraged);
    let leg = leg_tint(enraged);
    seq![
        seq![
            Segment::Gap(8),
            Segment::Paint("▁▁▁▂▃▄▅▆▇██", Tint::Indexed(221)),
            Segment::Gap((6 + g) as usize),
            Segment::Paint("██▇▆▅▄▃▂▁▁▁", Tint::Indexed(221)),
            Segment::Gap(8),
        ],
        seq![
            Segment::Gap(5),
            Segment::Paint("▂▃▄▅▆▇██████", Tint::Indexed(220)),
            Segment::Gap((6 + g) as usize),
            Segment::Paint("░▒▓█▓▒░", orb),
            Segment::Gap((6 + g) as usize),
            Segment::Paint("██████▇▆▅▄▃▂", Tint::Indexed(220)),
            Segment::Gap(5),
        ],
        seq![
            Segment::Gap(3),
            Segment::Paint("▃▄▅▆▇████████", Tint::Indexed(220)),
            Segment::Gap((4 + g) as usize),
            Segment::Paint("▒▓█████▓▒", orb),
            Segment::Gap((4 + g) as usize),
            Segment::Paint("████████▇▆▅▄▃", Tint::Indexed(220)),
            Segment::Gap(3),
        ],
        seq![
            Segment::Gap(1),
            Segment::Paint("▄▅▆▇██████████", Tint::Indexed(214)),
            Segment::Gap((3 + g) as usize),
            Segment::Paint("▓█████████▓", orb),
            Segment::Gap((3 + g) as usize),
            Segment::Paint("██████████▇▆▅▄", Tint::Indexed(214)),
            Segment::Gap(1),
        ],
        seq![
            Segment::Paint("▅▆▇███████", Tint::Indexed(214)),
            Segment::Gap((1 + h) as usize),
            Segment::Paint("████", Tint::Indexed(226)),
            Segment::Gap((1 + g) as usize),
            Segment::Paint("███████████", orb),
            Segment::Gap((1 + g) as usize),
            Segment::Paint("████", Tint::Indexed(226)),
            Segment::Gap((1 + h) as usize),
            Segment::Paint("███████▇▆▅", Tint::Indexed(214)),
        ],
        seq![
            Segment::Paint("▆▇██████", Tint::Indexed(214)),
            Segment::Gap((1 + h) as usize),
            Segment::Paint("██████", Tint::Indexed(226)),
            Segment::Gap((1 + g) as usize),
            Segment::Paint("▓███████▓", orb),
            Segment::Gap((1 + g) as usize),
            Segment::Paint("██████", Tint::Indexed(226)),
            Segment::Gap((1 + h) as usize),
            Segment::Paint("██████▇▆", Tint::Indexed(214)),
        ],
        seq![
            Segment::Gap(8),
            Segment::Paint("██████", Tint::Indexed(226)),
            Segment::Gap(3),
            Segment::Paint("▄▄█████▄▄", body),
            Segment::Gap(3),
            Segment::Paint("██████", Tint::Indexed(226)),
            Segment::Gap(8),
        ],
        seq![
            Segment::Gap(9),
            Segment::Paint("████", Tint::Indexed(226)),
            Segment::Gap(4),
            Segment::Paint("███▄███", body),
            Segment::Gap(4),
            Segment::Paint("████", Tint::Indexed(226)),
            Segment::Gap(9),
        ],
        seq![
            Segment::Gap(12),
            Segment::Paint("██", body),
            Segment::Gap(7),
            Segment::Paint("██", body),
            Segment::Gap(12),
        ],
        seq![
            Segment::Gap(12),
            Segment::Paint("▐█", leg),
            Segment::Gap(7),
            Segment::Paint("█▌", leg),
            Segment::Gap(12),
        ],
        seq![
            Segment::Gap(11),
            Segment::Paint("▐█", leg),
            Segment::Gap(9),
            Segment::Paint("█▌", leg),
            Segment::Gap(11),
        ],
        seq![
            Segment::Gap(10),
            Segment::Paint("▐▀", leg),
            Segment::Gap(11),
            Segment::Paint("▀▌", leg),
            Segment::Gap(10),
        ],
    ]
}

/// The emblem's picture, line by line.
pub fn mascot_lines(reaction_ticks: u8, enraged: bool) -> (r: Vec<Vec<Segment>>)
    ensures
        r@.len() == spec_mascot(reaction_ticks, enraged).len(),
        forall|i: int|
            0 <= i < r@.len() ==> #[trigger] r@[i]@ == spec_mascot(reaction_ticks, enraged)[i],
{
    let wing_gap = wing_gap(reaction_ticks) as usize;
    let half_gap = wing_gap / 2;
    let orb_color = if reaction_ticks > 0 {
        Tint::Indexed(230)
    } else if enraged {
        Tint::Indexed(196)
    } else {
        Tint::White
    };
    let body_color = if enraged { Tint::Indexed(203) } else { Tint::Indexed(229) };
    let leg_color = if enraged { Tint::Indexed(196) } else { Tint::LightRed };

    let lines = vec![
        vec![
            Segment::Gap(8),
            Segment::Paint("▁▁▁▂▃▄▅▆▇██", Tint::Indexed(221)),
            Segment::Gap(6 + wing_gap),
            Segment::Paint("██▇▆▅▄▃▂▁▁▁", Tint::Indexed(221)),
            Segment::Gap(8),
        ],
        vec![
            Segment::Gap(5),
            Segment::Paint("▂▃▄▅▆▇██████", Tint::Indexed(220)),
            Segment::Gap(6 + wing_gap),
            Segment::Paint("░▒▓█▓▒░", orb_color),
            Segment::Gap(6 + wing_gap),
            Segment::Paint("██████▇▆▅▄▃▂", Tint::Indexed(220)),
            Segment::Gap(5),
        ],
        vec![
            Segment::Gap(3),
            Segment::Paint("▃▄▅▆▇████████", Tint::Indexed(220)),
            Segment::Gap(4 + wing_gap),
            Segment::Paint("▒▓█████▓▒", orb_color),
            Segment::Gap(4 + wing_gap),
            Segment::Paint("████████▇▆▅▄▃", Tint::Indexed(220)),
            Segment::Gap(3),
        ],
        vec![
            Segment::Gap(1),
            Segment::Paint("▄▅▆▇██████████", Tint::Indexed(214)),
            Segment::Gap(3 + wing_gap),
            Segment::Paint("▓█████████▓", orb_color),
            Segment::Gap(3 + wing_gap),
            Segment::Paint("██████████▇▆▅▄", Tint::Indexed(214)),
            Segment::Gap(1),
        ],
        vec![
            Segment::Paint("▅▆▇███████", Tint::Indexed(214)),
            Segment::Gap(1 + half_gap),
            Segment::Paint("████", Tint::Indexed(226)),
            Segment::Gap(1 + wing_gap),
            Segment::Paint("███████████", orb_color),
            Segment::Gap(1 + wing_gap),
            Segment::Paint("████", Tint::Indexed(226)),
            Segment::Gap(1 + half_gap),
            Segment::Paint("███████▇▆▅", Tint::Indexed(214)),
        ],
        vec![
            Segment::Paint("▆▇██████", Tint::Indexed(214)),
            Segment::Gap(1 + half_gap),
            Segment::Paint("██████", Tint::Indexed(226)),
            Segment::Gap(1 + wing_gap),
            Segment::Paint("▓███████▓", orb_color),
            Segment::Gap(1 + wing_gap),
            Segment::Paint("██████", Tint::Indexed(226)),
            Segment::Gap(1 + half_gap),
            Segment::Paint("██████▇▆", Tint::Indexed(214)),
        ],
        vec![
            Segment::Gap(8),
            Segment::Paint("██████", Tint::Indexed(226)),
            Segment::Gap(3),
            Segment::Paint("▄▄█████▄▄", body_color),
            Segment::Gap(3),
            Segment::Paint("██████", Tint::Indexed(226)),
            Segment::Gap(8),
        ],
        vec![
            Segment::Gap(9),
            Segment::Paint("████", Tint::Indexed(226)),
            Segment::Gap(4),
            Segment::Paint("███▄███", body_color),
            Segment::Gap(4),
            Segment::Paint("████", Tint::Indexed(226)),
            Segment::Gap(9),
        ],
        vec![
            Segment::Gap(12),
            Segment::Paint("██", body_color),
            Segment::Gap(7),
            Segment::Paint("██", body_color),
            Segment::Gap(12),
        ],
        vec![
            Segment::Gap(12),
            Segment::Paint("▐█", leg_color),
            Segment::Gap(7),
            Segment::Paint("█▌", leg_color),
            Segment::Gap(12),
        ],
        vec![
            Segment::Gap(11),
            Segment::Paint("▐█", leg_color),
            Segment::Gap(9),
            Segment::Paint("█▌", leg_color),
            Segment::Gap(11),
        ],
        vec![
            Segment::Gap(10),
            Segment::Paint("▐▀", leg_color),
            Segment::Gap(11),
            Segment::Paint("▀▌", leg_color),
            Segment::Gap(10),
        ],
    ];
    assert(lines@.len() == 12);
    lines
}

/// Where the emblem's picture is drawn: the drawn stage bobbed by `shift`
/// rows and kept within `area`.
pub open spec fn spec_shifted_stage(area: Rect, stage: Rect, shift: i16) -> Rect {
    spec_clamp_rect_to_area(
        Rect::spec_new(stage.x, spec_apply_delta(stage.y, shift), stage.width, stage.height),
        area,
    )
}

/// The three lines of the halo: a row of stars, the emblem's mood, stars.
pub open spec fn halo_lines_ok(lines: Seq<StyledLine>, enraged: bool) -> bool {
    let stars = "      ✦  ✦  ✦      "@;
    let star_tint = if enraged { Tint::LightRed } else { Tint::Indexed(230) };
    &&& lines.len() == 3
    &&& lines[0].text@ == stars && lines[0].tint == Some(star_tint)
    &&& lines[1].text@ == (if enraged { "    ✦  ENRAGED  ✦   "@ } else { "   ✦  RADIANCE  ✦   "@ })
    &&& lines[1].tint == Some(if enraged { Tint::Indexed(196) } else { Tint::Indexed(229) })
    &&& lines[2].text@ == stars && lines[2].tint == Some(star_tint)
}

/// `r` lays out the emblem in `area`: the ray field at `pulse`, the halo
/// around the orb while the emblem reacts or rages, and its picture in the
/// drawn stage, bobbing while it reacts.
pub open spec fn emblem_scene_ok(
    r: EmblemScene,
    area: Rect,
    pulse: u32,
    reaction_ticks: u8,
    offset_x: i16,
    offset_y: i16,
    enraged: bool,
) -> bool {
    let stage = spec_rendered_stage(area, offset_x as int, offset_y as int);
    &&& ray_field_ok(r.background@, area, pulse)
    &&& r.stage == spec_shifted_stage(area, stage, spec_reaction_shift(reaction_ticks))
    &&& match r.halo {
        Some(h) => (reaction_ticks > 0 || enraged) && h.area == spec_centered_box(
            stage,
            ORB_WIDTH,
            ORB_HEIGHT,
        ) && halo_lines_ok(h.lines@, enraged),
        None => !(reaction_ticks > 0 || enraged),
    }
    &&& r.mascot@.len() == spec_mascot(reaction_ticks, enraged).len()
    &&& forall|i: int|
        0 <= i < r.mascot@.len() ==> #[trigger] r.mascot@[i]@ == spec_mascot(reaction_ticks, enraged)[i]
}

/// Lays out the emblem in `area`: the ray field at `pulse`, the stage moved by
/// the emblem's offset, the halo while it reacts or rages, and its picture,
/// bobbing while it reacts.
pub fn render(
    area: Rect,
    pulse: u32,
    reaction_ticks: u8,
    offset_x: i16,
    offset_y: i16,
    enraged: bool,
) -> (r: EmblemScene)
    requires
        ray_field_fits(area, pulse),
        origin_fits(spec_stage_rect(area), offset_x as int, offset_y as int),
    ensures
        emblem_scene_ok(r, area, pulse, reaction_ticks, offset_x, offset_y, enraged),
{
    let background = ray_field(area, pulse);
    let stage = rendered_stage_rect(area, offset_x, offset_y);
    let emblem_shift = reaction_shift(reaction_ticks);
    let orb_zone = centered_rect(stage, ORB_WIDTH, ORB_HEIGHT);

    let halo = if reaction_ticks > 0 || enraged {
        let star_tint = if enraged { Tint::LightRed } else { Tint::Indexed(230) };
        let mut lines: Vec<StyledLine> = Vec::new();
        lines.push(styled("      ✦  ✦  ✦      ", star_tint));
        lines.push(
            styled(
                if enraged {
                    "    ✦  ENRAGED  ✦   "
                } else {
                    "   ✦  RADIANCE  ✦   "
                },
                if enraged { Tint::Indexed(196) } else { Tint::Indexed(229) },
            ),
        );
        lines.push(styled("      ✦  ✦  ✦      ", star_tint));
        Some(Halo { area: orb_zone, lines })
    } else {
        None
    };

    let shifted_stage = clamp_rect_to_area(
        Rect::new(stage.x, apply_delta(stage.y, emblem_shift), stage.width, stage.height),
        area,
    );

    EmblemScene {
        background,
        halo,
        stage: shifted_stage,
        mascot: mascot_lines(reaction_ticks, enraged),
    }
}

} // verus!
