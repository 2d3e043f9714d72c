use vstd::prelude::*;

verus! {

/// A cell position on the terminal.
#[derive(Debug, Clone, Copy, PartialEq, Eq, Structural)]
pub struct Position {
    pub x: u16,
    pub y: u16,
}

impl Position {
    pub fn new(x: u16, y: u16) -> (p: Self)
        ensures
            p == (Position { x, y }),
    {
        Position { x, y }
    }
}

/// A rectangle of terminal cells: its top-left corner and its size.
#[derive(Debug, Clone, Copy, PartialEq, Eq, Structural)]
pub struct Rect {
    pub x: u16,
    pub y: u16,
    pub width: u16,
    pub height: u16,
}

/// `a + b`, or `u16::MAX` when that does not fit.
pub open spec fn sat_add_u16(a: u16, b: u16) -> u16 {
    if a + b > u16::MAX { u16::MAX } else { (a + b) as u16 }
}

/// `a - b`, or 0 when that is negative.
pub open spec fn sat_sub_u16(a: u16, b: u16) -> u16 {
    if a >= b { (a - b) as u16 } else { 0 }
}

impl Rect {
    pub fn new(x: u16, y: u16, width: u16, height: u16) -> (r: Self)
        ensures
            r == (Rect { x, y, width, height }),
    {
        Rect { x, y, width, height }
    }

    pub open spec fn spec_left(self) -> u16 {
        self.x
    }

    pub open spec fn spec_top(self) -> u16 {
        self.y
    }

    pub open spec fn spec_right(self) -> u16 {
        sat_add_u16(self.x, self.width)
    }

    pub open spec fn spec_bottom(self) -> u16 {
        sat_add_u16(self.y, self.height)
    }

    /// The leftmost column.
    #[verifier::when_used_as_spec(spec_left)]
    pub fn left(self) -> (l: u16)
        ensures
            l == self.spec_left(),
    {
        self.x
    }

    /// The top row.
    #[verifier::when_used_as_spec(spec_top)]
    pub fn top(self) -> (t: u16)
        ensures
            t == self.spec_top(),
    {
        self.y
    }

    /// The column just right of the rectangle, saturating at `u16::MAX`.
    #[verifier::when_used_as_spec(spec_right)]
    pub fn right(self) -> (r: u16)
        ensures
            r == self.spec_right(),
    {
        self.x.saturating_add(self.width)
    }

    /// The row just below the rectangle, saturating at `u16::MAX`.
    #[verifier::when_used_as_spec(spec_bottom)]
    pub fn bottom(self) -> (b: u16)
        ensures
            b == self.spec_bottom(),
    {
        self.y.saturating_add(self.height)
    }

    /// `inner` lies within `self`.
    pub open spec fn contains_rect(self, inner: Rect) -> bool {
        &&& self.x <= inner.x
        &&& self.y <= inner.y
        &&& inner.x + inner.width <= self.x + self.width
        &&& inner.y + inner.height <= self.y + self.height
    }
}

} // verus!
