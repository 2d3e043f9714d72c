//! Widget models and the layout arithmetic of the terminal widgets.
pub mod button;
pub mod input_field;
pub mod input_line;
pub mod menu;
pub mod popup;

use vstd::prelude::*;

use crate::tui::layout::{Position, Rect};

verus! {

/// The four corner cells of a rectangle.
#[derive(Debug, Clone, PartialEq, Eq, Structural)]
pub struct Corners {
    pub top_left: Position,
    pub top_right: Position,
    pub bottom_left: Position,
    pub bottom_right: Position,
}

impl Corners {
    /// The corner cells of `rect`: its first and last column and row.
    pub fn from_rect(rect: Rect) -> (c: Self)
        requires
            1 <= rect.x + rect.width <= u16::MAX,
            1 <= rect.y + rect.height <= u16::MAX,
        ensures
            c.top_left == (Position { x: rect.x, y: rect.y }),
            c.top_right == (Position { x: (rect.x + rect.width - 1) as u16, y: rect.y }),
            c.bottom_left == (Position { x: rect.x, y: (rect.y + rect.height - 1) as u16 }),
            c.bottom_right == (Position {
                x: (rect.x + rect.width - 1) as u16,
                y: (rect.y + rect.height - 1) as u16,
            }),
    {
        let x_right_idx = rect.x + rect.width - 1;
        let y_bottom_idx = rect.y + rect.height - 1;
        Corners {
            top_left: Position::new(rect.x, rect.y),
            top_right: Position::new(x_right_idx, rect.y),
            bottom_left: Position::new(rect.x, y_bottom_idx),
            bottom_right: Position::new(x_right_idx, y_bottom_idx),
        }
    }
}

} // verus!
