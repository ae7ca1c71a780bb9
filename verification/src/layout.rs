//! Screen rectangles and the vertical split of the drawing area.

use vstd::prelude::*;

verus! {

/// A rectangle of terminal cells: the column and row of its top left corner,
/// and its size.
#[derive(Clone, Copy, Debug, PartialEq, Eq, Structural)]
pub struct Rect {
    pub x: u16,
    pub y: u16,
    pub width: u16,
    pub height: u16,
}

/// The two areas that `ratatui` cuts out of `area` for a vertical layout of two
/// percentage constraints, `first` above `second`.
pub uninterp spec fn vertical_percentage_areas(area: Rect, first: u16, second: u16) -> (Rect, Rect);

/// Splits `area` into an upper and a lower part with `ratatui`'s constraint
/// solver: `Layout::vertical` over two `Constraint::Percentage` values, then
/// `Layout::areas`.
///
/// Trusted, not proved: the solver's answer is named, not computed here. Where
/// the rows are cut is the solver's rounding of the two shares. For a vertical
/// layout without margin it copies the column and the width of `area` into each
/// part. Shares that ask for more than the whole area have no single best
/// answer, so the name is claimed only for shares of at most 100 together.
#[verifier::external_body]
pub(crate) fn split_vertical(area: Rect, first: u16, second: u16) -> (parts: (Rect, Rect))
    requires
        first + second <= 100,
    ensures
        parts == vertical_percentage_areas(area, first, second),
        parts.0.x == area.x,
        parts.0.width == area.width,
        parts.1.x == area.x,
        parts.1.width == area.width,
{
    let outer = ratatui::layout::Rect { x: area.x, y: area.y, width: area.width, height: area.height };
    let [upper, lower] = ratatui::layout::Layout::vertical([
        ratatui::layout::Constraint::Percentage(first),
        ratatui::layout::Constraint::Percentage(second),
    ]).areas(outer);
    (
        Rect { x: upper.x, y: upper.y, width: upper.width, height: upper.height },
        Rect { x: lower.x, y: lower.y, width: lower.width, height: lower.height },
    )
}

} // verus!
