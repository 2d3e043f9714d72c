use vstd::prelude::*;

use crate::text::{law_split_lines_shape, newline_count, split_at_newlines, split_lines, views_of};
use crate::tui::input::{Key, KeyInput};
use crate::tui::layout::Position;

verus! {

/// An edit of a multi-line input field.
#[derive(Debug, Clone, PartialEq, Eq, PartialOrd, Ord, Structural)]
pub enum InputAction {
    MoveLeft,
    MoveRight,
    MoveUp,
    MoveDown,
    Insert(char),
    DeleteChar,
    Escape,
    Enter,
}

/// The edit a key stands for, with no modifier held.
pub open spec fn action_of_key(code: Key) -> Option<InputAction> {
    match code {
        Key::Enter => Some(InputAction::Enter),
        Key::Esc => Some(InputAction::Escape),
        Key::Left => Some(InputAction::MoveLeft),
        Key::Right => Some(InputAction::MoveRight),
        Key::Down => Some(InputAction::MoveDown),
        Key::Up => Some(InputAction::MoveUp),
        Key::Backspace => Some(InputAction::DeleteChar),
        Key::Char(c) => Some(InputAction::Insert(c)),
        _ => None,
    }
}

impl InputAction {
    /// The edit a key event stands for; none while a modifier is held.
    pub fn parse_event(e: KeyInput) -> (a: Option<InputAction>)
        ensures
            a == if e.no_modifiers { action_of_key(e.code) } else { None },
    {
        if !e.no_modifiers {
            return None;
        }
        match e.code {
            Key::Enter => Some(InputAction::Enter),
            Key::Esc => Some(InputAction::Escape),
            Key::Left => Some(InputAction::MoveLeft),
            Key::Right => Some(InputAction::MoveRight),
            Key::Down => Some(InputAction::MoveDown),
            Key::Up => Some(InputAction::MoveUp),
            Key::Backspace => Some(InputAction::DeleteChar),
            Key::Char(c) => Some(InputAction::Insert(c)),
            _ => None,
        }
    }
}

/// A cursor in a text field: column and row, never negative.
#[derive(Debug, Clone, Copy, PartialEq, Eq, PartialOrd, Ord, Structural)]
pub struct Cursor {
    x: i32,
    y: i32,
}

impl View for Cursor {
    type V = (int, int);

    closed spec fn view(&self) -> (int, int) {
        (self.x as int, self.y as int)
    }
}

/// The coordinate after a move: the sum, clamped to `0..=u16::MAX`.
pub open spec fn moved_coord(a: int, b: int) -> int {
    if a + b < 0 {
        0
    } else if a + b > u16::MAX {
        u16::MAX as int
    } else {
        a + b
    }
}

/// `a + b` clamped to `0..=u16::MAX`, for `a` already in that range.
fn clamped_move(a: i32, b: i32) -> (r: i32)
    requires
        0 <= a <= u16::MAX,
    ensures
        r == moved_coord(a as int, b as int),
{
    let s: i64 = a as i64 + b as i64;
    if s < 0 {
        0
    } else if s > u16::MAX as i64 {
        u16::MAX as i32
    } else {
        s as i32
    }
}

impl Cursor {
    /// Both coordinates lie within `0..=u16::MAX`.
    #[verifier::type_invariant]
    spec fn inv(&self) -> bool {
        &&& 0 <= self.x <= u16::MAX
        &&& 0 <= self.y <= u16::MAX
    }

    pub fn new(x: u16, y: u16) -> (c: Self)
        ensures
            c@ == (x as int, y as int),
    {
        Cursor { x: x as i32, y: y as i32 }
    }

    /// The column.
    pub fn x(&self) -> (x: u16)
        ensures
            x == self@.0,
    {
        proof {
            use_type_invariant(self);
        }
        self.x as u16
    }

    /// The row.
    pub fn y(&self) -> (y: u16)
        ensures
            y == self@.1,
    {
        proof {
            use_type_invariant(self);
        }
        self.y as u16
    }

    /// The cursor moved by `(x, y)`, each coordinate clamped to `0..=u16::MAX`.
    pub fn moved_by(&self, x: i32, y: i32) -> (c: Self)
        ensures
            c@ == (moved_coord(self@.0, x as int), moved_coord(self@.1, y as int)),
    {
        proof {
            use_type_invariant(self);
        }
        Cursor { x: clamped_move(self.x, x), y: clamped_move(self.y, y) }
    }

    /// A cursor at `(x, y)`; a coordinate outside `0..=u16::MAX` becomes 0.
    pub fn from_coords(coords: (i32, i32)) -> (c: Self)
        ensures
            c@ == (
                if 0 <= coords.0 <= u16::MAX { coords.0 as int } else { 0int },
                if 0 <= coords.1 <= u16::MAX { coords.1 as int } else { 0int },
            ),
    {
        let (x, y) = coords;
        let x16: u16 = if 0 <= x && x <= u16::MAX as i32 { x as u16 } else { 0 };
        let y16: u16 = if 0 <= y && y <= u16::MAX as i32 { y as u16 } else { 0 };
        Self::new(x16, y16)
    }

    /// A cursor at a terminal position.
    pub fn from_position(value: Position) -> (c: Self)
        ensures
            c@ == (value.x as int, value.y as int),
    {
        Self::new(value.x, value.y)
    }
}

impl Default for Cursor {
    fn default() -> (c: Self)
        ensures
            c@ == (0int, 0int),
    {
        Cursor { x: 0, y: 0 }
    }
}

/// A multi-line text field: its lines, its cursor, and optional limits on
/// the number of lines and the length of each.
#[derive(Debug)]
pub struct Field {
    pub cursor: Cursor,
    pub lines: Vec<String>,
    pub max_lines: Option<usize>,
    pub max_line_len: Option<usize>,
}

impl Default for Field {
    fn default() -> (f: Self)
        ensures
            f.cursor@ == (0int, 0int),
            f.lines@.len() == 0,
            f.max_lines is None,
            f.max_line_len is None,
    {
        Field { cursor: Cursor::default(), lines: Vec::new(), max_lines: None, max_line_len: None }
    }
}

impl Field {
    /// A field holding `lines`, cursor at the origin, no limits.
    pub fn new(lines: Vec<String>) -> (f: Self)
        ensures
            f.lines == lines,
            f.cursor@ == (0int, 0int),
            f.max_lines is None,
            f.max_line_len is None,
    {
        Field { lines, ..Default::default() }
    }

    pub fn set_max_lines(self, max_lines: Option<usize>) -> (f: Self)
        ensures
            f.max_lines == max_lines,
            f.lines == self.lines,
            f.cursor == self.cursor,
            f.max_line_len == self.max_line_len,
    {
        let mut f = self;
        f.max_lines = max_lines;
        f
    }

    pub fn set_max_line_len(self, max_line_len: Option<usize>) -> (f: Self)
        ensures
            f.max_line_len == max_line_len,
            f.lines == self.lines,
            f.cursor == self.cursor,
            f.max_lines == self.max_lines,
    {
        let mut f = self;
        f.max_line_len = max_line_len;
        f
    }

    /// A field holding the lines of `s` (split at every newline), cursor at
    /// the origin, no limits: one line more than `s` has newlines, none of
    /// them holding a newline.
    pub fn from_str(s: &str) -> (f: Self)
        ensures
            views_of(f.lines@) == split_lines(s@),
            f.lines@.len() == newline_count(s@) + 1,
            forall|i: int| 0 <= i < f.lines@.len() ==> !(#[trigger] f.lines@[i])@.contains('\n'),
            f.cursor@ == (0int, 0int),
            f.max_lines is None,
            f.max_line_len is None,
    {
        let lines = split_at_newlines(s);
        proof {
            law_split_lines_shape(s@);
            assert forall|i: int| 0 <= i < lines@.len() implies !(#[trigger] lines@[i])@.contains('\n') by {
                assert(views_of(lines@)[i] == lines@[i]@);
            }
        }
        Field { lines, ..Default::default() }
    }
}

} // verus!
