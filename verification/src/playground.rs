//! The rectangle inside which the animation plays.

use vstd::prelude::*;

verus! {

/// A rectangle of terminal cells: the corner nearest the origin and the size.
#[derive(Clone, Copy, Debug, PartialEq, Eq)]
pub struct Playground {
    pub x: u16,
    pub y: u16,
    pub width: u16,
    pub height: u16,
}

/// The width and height that `tui::layout::Rect::new` settles on when the
/// area asked for is more than `u16::MAX` cells. It shrinks both sides with
/// floating-point arithmetic; the result depends on the two sides alone.
pub uninterp spec fn clipped_size(width: u16, height: u16) -> (u16, u16);

/// Builds the rectangle with `tui::layout::Rect::new` and copies its four
/// fields out.
///
/// Claimed of that function, not proved: it keeps the corner; it keeps the
/// size while the area is at most `u16::MAX`; otherwise it shrinks the size
/// to `clipped_size`.
#[verifier::external_body]
fn rect_new(x: u16, y: u16, width: u16, height: u16) -> (r: Playground)
    ensures
        r.x == x,
        r.y == y,
        width * height <= u16::MAX ==> r.width == width && r.height == height,
        width * height > u16::MAX ==> (r.width, r.height) == clipped_size(width, height),
{
    let rect = tui::layout::Rect::new(x, y, width, height);
    Playground { x: rect.x, y: rect.y, width: rect.width, height: rect.height }
}

impl Playground {
    /// The size a playground gets when `width` by `height` is asked for.
    pub open spec fn fitted_size(width: u16, height: u16) -> (u16, u16) {
        if width * height <= u16::MAX {
            (width, height)
        } else {
            clipped_size(width, height)
        }
    }

    /// The left wall.
    pub open spec fn spec_left(self) -> u16 {
        self.x
    }

    /// The right wall: the left wall plus the width, held at `u16::MAX`.
    pub open spec fn spec_right(self) -> u16 {
        if self.x + self.width > u16::MAX {
            u16::MAX
        } else {
            (self.x + self.width) as u16
        }
    }

    /// The top wall.
    pub open spec fn spec_top(self) -> u16 {
        self.y
    }

    /// The bottom wall: the top wall plus the height, held at `u16::MAX`.
    pub open spec fn spec_bottom(self) -> u16 {
        if self.y + self.height > u16::MAX {
            u16::MAX
        } else {
            (self.y + self.height) as u16
        }
    }

    /// A playground with its corner at (`x`, `y`). The size is the one asked
    /// for unless its area is more than `u16::MAX` cells.
    pub fn new(x: u16, y: u16, width: u16, height: u16) -> (p: Playground)
        ensures
            p.x == x,
            p.y == y,
            (p.width, p.height) == Self::fitted_size(width, height),
    {
        rect_new(x, y, width, height)
    }

    #[verifier::when_used_as_spec(spec_left)]
    pub fn left(self) -> (edge: u16)
        ensures
            edge == self.spec_left(),
    {
        self.x
    }

    #[verifier::when_used_as_spec(spec_right)]
    pub fn right(self) -> (edge: u16)
        ensures
            edge == self.spec_right(),
    {
        if self.width > u16::MAX - self.x {
            u16::MAX
        } else {
            self.x + self.width
        }
    }

    #[verifier::when_used_as_spec(spec_top)]
    pub fn top(self) -> (edge: u16)
        ensures
            edge == self.spec_top(),
    {
        self.y
    }

    #[verifier::when_used_as_spec(spec_bottom)]
    pub fn bottom(self) -> (edge: u16)
        ensures
            edge == self.spec_bottom(),
    {
        if self.height > u16::MAX - self.y {
            u16::MAX
        } else {
            self.y + self.height
        }
    }
}

} // verus!
