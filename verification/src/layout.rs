use vstd::prelude::*;
use crate::geometry::{Rect, min_int, sat_sub, COORD_MAX};

verus! {

/// Start row and height of a band `length` rows tall that ratatui's layout
/// solver centres in the rows `y..y + height` (a `Flex::Center` layout with a
/// single `Constraint::Length`). When the band does not fit it is cut down.
pub uninterp spec fn centered_rows(y: u16, height: u16, length: u16) -> (u16, u16);

/// Start column and width of a band `length` columns wide that ratatui's
/// layout solver centres in the columns `x..x + width` (a `Flex::Center`
/// layout with a single `Constraint::Length`).
pub uninterp spec fn centered_columns(x: u16, width: u16, length: u16) -> (u16, u16);

/// Centres a band of `length` rows in `area` with ratatui's
/// `Layout::vertical([Constraint::Length(length)]).flex(Flex::Center).areas`.
/// Trusted: the band keeps `area`'s columns (the solver only places rows);
/// it lies within `area`'s rows (whose end saturates at the coordinate
/// range) and is `length` rows tall, or all of them where fewer are there;
/// its rows are a function of `area`'s rows and `length` alone, named
/// [`centered_rows`]. Where exactly the solver puts the band is not stated.
#[verifier::external_body]
pub(crate) fn center_rows(area: Rect, length: u16) -> (r: Rect)
    ensures
        r.x == area.x,
        r.width == area.width,
        (r.y, r.height) == centered_rows(area.y, area.height, length),
        area.y <= r.y,
        r.height == min_int(length as int, min_int(area.y + area.height, COORD_MAX as int) - area.y),
        r.y + r.height <= min_int(area.y + area.height, COORD_MAX as int),
{
    let outer = ratatui::layout::Rect { x: area.x, y: area.y, width: area.width, height: area.height };
    let [band] = ratatui::layout::Layout::vertical([ratatui::layout::Constraint::Length(length)])
        .flex(ratatui::layout::Flex::Center)
        .areas(outer);
    Rect { x: band.x, y: band.y, width: band.width, height: band.height }
}

/// Centres a band of `length` columns in `area` with ratatui's
/// `Layout::horizontal([Constraint::Length(length)]).flex(Flex::Center).areas`.
/// Trusted: the band keeps `area`'s rows (the solver only places columns);
/// it lies within `area`'s columns (whose end saturates at the coordinate
/// range) and is `length` columns wide, or all of them where fewer are
/// there; its columns are a function of `area`'s columns and `length` alone,
/// named [`centered_columns`]. Where exactly the solver puts the band is not
/// stated.
#[verifier::external_body]
pub(crate) fn center_columns(area: Rect, length: u16) -> (r: Rect)
    ensures
        r.y == area.y,
        r.height == area.height,
        (r.x, r.width) == centered_columns(area.x, area.width, length),
        area.x <= r.x,
        r.width == min_int(length as int, min_int(area.x + area.width, COORD_MAX as int) - area.x),
        r.x + r.width <= min_int(area.x + area.width, COORD_MAX as int),
{
    let outer = ratatui::layout::Rect { x: area.x, y: area.y, width: area.width, height: area.height };
    let [band] = ratatui::layout::Layout::horizontal([ratatui::layout::Constraint::Length(length)])
        .flex(ratatui::layout::Flex::Center)
        .areas(outer);
    Rect { x: band.x, y: band.y, width: band.width, height: band.height }
}

/// `area` with a band of `height` rows centred in it, and in that band a box
/// `width` columns wide centred.
pub open spec fn spec_centered_box(area: Rect, width: u16, height: u16) -> Rect {
    let rows = centered_rows(area.y, area.height, height);
    let cols = centered_columns(area.x, area.width, width);
    Rect { x: cols.0, y: rows.0, width: cols.1, height: rows.1 }
}

/// `r` lies within `area` (whose right and bottom edges saturate at the
/// coordinate range) and is `width` by `height`, cut down to `area`'s size
/// where it is smaller.
pub open spec fn box_in_area(r: Rect, area: Rect, width: u16, height: u16) -> bool {
    let right = min_int(area.x + area.width, COORD_MAX as int);
    let bottom = min_int(area.y + area.height, COORD_MAX as int);
    &&& area.x <= r.x
    &&& r.x + r.width <= right
    &&& r.width == min_int(width as int, right - area.x)
    &&& area.y <= r.y
    &&& r.y + r.height <= bottom
    &&& r.height == min_int(height as int, bottom - area.y)
}

/// A box of `width` by `height` centred in `area` by the layout solver, first
/// along the rows and then along the columns.
pub fn centered_rect(area: Rect, width: u16, height: u16) -> (r: Rect)
    ensures
        r == spec_centered_box(area, width, height),
        box_in_area(r, area, width, height),
{
    let middle = center_rows(area, height);
    center_columns(middle, width)
}

/// Display width, in terminal columns, that ratatui's `Line::width` gives a
/// line built from `text`.
pub uninterp spec fn line_width(text: Seq<char>) -> usize;

/// Display width of `text` in terminal columns, as ratatui measures a line
/// made of it (`Line::raw(text).width()`, the sum of the unicode widths of its
/// pieces; a style does not change it). Trusted: the result is a function of
/// the text alone, named [`line_width`]; the width tables behind it are not
/// stated.
#[verifier::external_body]
pub(crate) fn display_width(text: &str) -> (r: usize)
    ensures
        r == line_width(text@),
{
    ratatui::text::Line::raw(text).width()
}

/// The inside of a box with a border on every side and no padding, as
/// ratatui's `Block::inner` lays it out: one cell in from the left and top
/// edges (never past the right or bottom edge) and two cells narrower and
/// shorter (never below zero).
pub open spec fn spec_inner_box(area: Rect) -> Rect {
    let right = min_int(area.x + area.width, COORD_MAX as int);
    let bottom = min_int(area.y + area.height, COORD_MAX as int);
    Rect {
        x: min_int(min_int(area.x + 1, COORD_MAX as int), right) as u16,
        y: min_int(min_int(area.y + 1, COORD_MAX as int), bottom) as u16,
        width: sat_sub(area.width as int, 2) as u16,
        height: sat_sub(area.height as int, 2) as u16,
    }
}

/// The inside of a box with a border on every side.
pub fn inner_box(area: Rect) -> (r: Rect)
    ensures
        r == spec_inner_box(area),
{
    let right = area.x.saturating_add(area.width);
    let bottom = area.y.saturating_add(area.height);
    let left = area.x.saturating_add(1);
    let top = area.y.saturating_add(1);
    Rect {
        x: if left < right { left } else { right },
        y: if top < bottom { top } else { bottom },
        width: area.width.saturating_sub(2),
        height: area.height.saturating_sub(2),
    }
}

} // verus!
