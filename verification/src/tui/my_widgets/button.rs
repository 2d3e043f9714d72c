use vstd::prelude::*;

use crate::tui::layout::{sat_add_u16, sat_sub_u16, Position, Rect};

verus! {

/// The same padding on both sides: `x` columns left and right, `y` rows
/// above and below.
#[derive(Debug, Clone, PartialEq, Eq, Structural)]
pub struct EqPad {
    x: u16,
    y: u16,
}

impl View for EqPad {
    type V = (u16, u16);

    closed spec fn view(&self) -> (u16, u16) {
        (self.x, self.y)
    }
}

/// The smaller of two numbers.
pub open spec fn min_u16(a: u16, b: u16) -> u16 {
    if a <= b { a } else { b }
}

/// The rectangle inside `rect` after padding by `x` columns and `y` rows on
/// each side; the padding shrinks to half the size when it does not fit.
pub open spec fn padded(x: u16, y: u16, rect: Rect) -> Rect {
    let px = min_u16(x, (rect.width / 2) as u16);
    let py = min_u16(y, (rect.height / 2) as u16);
    Rect {
        x: (rect.x + px) as u16,
        y: (rect.y + py) as u16,
        width: (rect.width - 2 * px) as u16,
        height: (rect.height - 2 * py) as u16,
    }
}

impl EqPad {
    pub fn new(x: u16, y: u16) -> (p: Self)
        ensures
            p@ == (x, y),
    {
        Self { x, y }
    }

    /// The same padding on every side.
    pub fn uniform(value: u16) -> (p: Self)
        ensures
            p@ == (value, value),
    {
        Self::new(value, value)
    }

    /// The rectangle inside `rect`; see [`padded`].
    pub fn inner(&self, rect: Rect) -> (r: Rect)
        requires
            rect.x + min_u16(self@.0, (rect.width / 2) as u16) <= u16::MAX,
            rect.y + min_u16(self@.1, (rect.height / 2) as u16) <= u16::MAX,
        ensures
            r == padded(self@.0, self@.1, rect),
            rect.x + rect.width <= u16::MAX && rect.y + rect.height <= u16::MAX
                ==> rect.contains_rect(r),
    {
        let half_w = rect.width / 2;
        let half_h = rect.height / 2;
        let x = if self.x <= half_w { self.x } else { half_w };
        let y = if self.y <= half_h { self.y } else { half_h };
        Rect {
            x: rect.x + x,
            y: rect.y + y,
            width: rect.width.saturating_sub(x * 2),
            height: rect.height.saturating_sub(y * 2),
        }
    }
}

impl Default for EqPad {
    fn default() -> (p: Self)
        ensures
            p@ == (0u16, 0u16),
    {
        EqPad { x: 0, y: 0 }
    }
}

/// Whether a button is drawn focused.
pub struct ButtonState {
    pub focused: bool,
}

impl Default for ButtonState {
    fn default() -> (s: Self)
        ensures
            !s.focused,
    {
        ButtonState { focused: false }
    }
}

impl ButtonState {
    pub fn set_focused(self, focused: bool) -> (s: Self)
        ensures
            s.focused == focused,
    {
        let mut s = self;
        s.focused = focused;
        s
    }
}

/// Where a padded button's label goes: centred in `inner` (the area left
/// after padding), one row high, as wide as the label (its width taken
/// modulo 2^16) but no wider than `inner`.
pub open spec fn label_area(inner: Rect, line_width: usize) -> Rect {
    let lw = line_width as u16;
    Rect {
        x: sat_add_u16(inner.x, (sat_sub_u16(inner.width, lw) / 2) as u16),
        y: (inner.y + inner.height / 2) as u16,
        width: min_u16(lw, inner.width),
        height: 1,
    }
}

/// A padded button is drawn only when the area left after padding is at
/// least two columns wide and one row high.
pub open spec fn button_drawn(inner: Rect) -> bool {
    inner.width >= 2 && inner.height >= 1
}

/// Whether a padded button with the inner area `inner` is drawn; see [`button_drawn`].
pub fn is_button_drawn(inner: Rect) -> (b: bool)
    ensures
        b == button_drawn(inner),
{
    inner.width >= 2 && inner.height >= 1
}

/// Where the label of a padded button goes; see [`label_area`].
pub fn button_label_area(inner: Rect, line_width: usize) -> (r: Rect)
    requires
        inner.y + inner.height / 2 <= u16::MAX,
    ensures
        r == label_area(inner, line_width),
{
    let line_width = line_width as u16;
    let x = inner.x.saturating_add(inner.width.saturating_sub(line_width) / 2);
    let y = inner.y + inner.height / 2;
    let w = if line_width <= inner.width { line_width } else { inner.width };
    Rect::new(x, y, w, 1)
}

/// Where a bracketed button puts its brackets and its label: `[` at the top
/// left, `]` at the top right, and the label after `min_x_pad` blank columns.
pub open spec fn simple_layout(area: Rect, min_x_pad: u16) -> (Position, Position, Rect) {
    (
        Position { x: area.x, y: area.y },
        Position { x: (area.x + area.width - 1) as u16, y: area.y },
        Rect {
            x: (area.x + min_x_pad + 1) as u16,
            width: (area.width - min_x_pad - 1) as u16,
            ..area
        },
    )
}

/// The layout of a bracketed button; see [`simple_layout`].
pub fn button_simple_layout(area: Rect, min_x_pad: u16) -> (r: (Position, Position, Rect))
    requires
        1 <= area.x + area.width <= u16::MAX,
        area.x + min_x_pad + 1 <= u16::MAX,
        min_x_pad + 1 <= area.width,
    ensures
        r == simple_layout(area, min_x_pad),
{
    let left = Position::new(area.x, area.y);
    let right = Position::new(area.x + area.width - 1, area.y);
    let line_area = Rect {
        x: area.x + min_x_pad + 1,
        width: area.width - min_x_pad - 1,
        ..area
    };
    (left, right, line_area)
}

} // verus!
