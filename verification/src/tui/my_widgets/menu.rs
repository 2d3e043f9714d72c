use vstd::prelude::*;

use crate::text::{chars_of, string_of};
use crate::tui::layout::Rect;

verus! {

/// Which menu entry is selected, if any.
pub struct MenuState {
    selected: Option<usize>,
}

impl MenuState {
    /// The selected entry.
    pub closed spec fn spec_selected(&self) -> Option<usize> {
        self.selected
    }

    /// A menu with nothing selected.
    pub fn new() -> (s: Self)
        ensures
            s.spec_selected() is None,
    {
        Self { selected: None }
    }

    /// Selects entry `selected` and hands the state back for chaining.
    pub fn with_selected(&mut self, selected: usize) -> (r: &mut Self)
        ensures
            r.spec_selected() == Some(selected),
            *final(self) == *final(r),
    {
        self.selected = Some(selected);
        self
    }

    pub fn selected(&self) -> (s: Option<usize>)
        ensures
            s == self.spec_selected(),
    {
        self.selected
    }
}

impl Default for MenuState {
    fn default() -> (s: Self)
        ensures
            s.spec_selected() is None,
    {
        Self::new()
    }
}

/// The first entry shown in a menu `height` rows high: the selected entry
/// (the first when none is) is kept on the last visible row.
pub open spec fn first_shown(selected: Option<usize>, height: u16) -> usize {
    let s = match selected {
        Some(s) => s,
        None => 0,
    };
    if s >= height - 1 { (s - (height - 1)) as usize } else { 0 }
}

/// The first entry shown in a menu `height` rows high; see [`first_shown`].
pub fn menu_first_shown(selected: Option<usize>, height: u16) -> (i: usize)
    requires
        height >= 1,
    ensures
        i == first_shown(selected, height),
{
    let s = match selected {
        Some(s) => s,
        None => 0,
    };
    s.saturating_sub(height as usize - 1)
}

/// The label of a menu entry `text_width` columns wide, in a row `width`
/// columns wide that also holds a key hint `key_width` wide, `gap` columns
/// apart: kept when everything fits, else cut to `width - gap - key_width`
/// characters, the last of them turned into `.` (nothing is left when that
/// is 0).
pub open spec fn shortened(text: Seq<char>, text_width: nat, key_width: nat, gap: nat, width: nat) -> Seq<char> {
    if text_width + key_width + gap <= width {
        text
    } else {
        let n = width - gap - key_width;
        if n == 0 { Seq::empty() } else { text.take(n - 1).push('.') }
    }
}

/// The label of a menu entry, whose display width is `text_width`; see
/// [`shortened`]. A label that must be cut is cut by characters, so it is
/// expected to be one column per character (at least as many characters as
/// columns).
pub fn shorten_label(text: &str, text_width: usize, key_width: usize, gap: usize, width: usize) -> (s: String)
    requires
        text_width + key_width + gap <= usize::MAX,
        text_width + key_width + gap > width ==> key_width + gap <= width,
        text_width + key_width + gap > width ==> text_width <= text@.len(),
    ensures
        s@ == shortened(text@, text_width as nat, key_width as nat, gap as nat, width as nat),
{
    let chars = chars_of(text);
    if text_width + key_width + gap <= width {
        return string_of(chars.as_slice());
    }
    let n = width - gap - key_width;
    let mut out: Vec<char> = Vec::new();
    if n == 0 {
        return string_of(out.as_slice());
    }
    assert(n <= chars@.len());
    let last = n - 1;
    for i in 0..last
        invariant
            last < n,
            n <= chars@.len(),
            out@ == chars@.take(i as int),
    {
        out.push(chars[i]);
        assert(chars@.take(i + 1) == chars@.take(i as int).push(chars@[i as int]));
    }
    out.push('.');
    string_of(out.as_slice())
}

/// A row of a drawn menu: which entry it shows, on which line, and whether
/// that entry is the selected one.
#[derive(Debug, Clone, Copy, PartialEq, Eq, Structural)]
pub struct MenuRow {
    pub item: usize,
    pub y: u16,
    pub selected: bool,
}

/// Whether a menu in `area` is drawn at all: only when the area has both
/// width and height.
pub fn menu_drawn(area: Rect) -> (b: bool)
    ensures
        b == (area.width > 0 && area.height > 0),
{
    area.width > 0 && area.height > 0
}

/// How many entries of `n_items` a menu in `area` shows, starting from
/// [`first_shown`]: none when the area is empty, else as many as are left
/// from that entry, but no more than the area has rows.
pub open spec fn rows_shown(area: Rect, selected: Option<usize>, n_items: nat) -> nat {
    if area.width == 0 || area.height == 0 {
        0
    } else {
        let start = first_shown(selected, area.height);
        if start >= n_items {
            0
        } else if n_items - start <= area.height {
            (n_items - start) as nat
        } else {
            area.height as nat
        }
    }
}

/// The rows of a menu of `n_items` entries drawn in `area`: entry
/// `first_shown + k` on line `area.y + k`, highlighted when it is the
/// selected one; no row when the area is empty.
pub fn menu_rows(area: Rect, selected: Option<usize>, n_items: usize) -> (rows: Vec<MenuRow>)
    requires
        area.y + area.height <= u16::MAX,
    ensures
        rows@.len() == rows_shown(area, selected, n_items as nat),
        forall|k: int|
            0 <= k < rows@.len() ==> {
                let start = first_shown(selected, area.height);
                &&& (#[trigger] rows@[k]).item == start + k
                &&& rows@[k].y == area.y + k
                &&& rows@[k].selected == (selected == Some((start + k) as usize))
            },
{
    let mut rows: Vec<MenuRow> = Vec::new();
    if !menu_drawn(area) {
        return rows;
    }
    let start = menu_first_shown(selected, area.height);
    let count: usize = if start >= n_items {
        0
    } else if n_items - start <= area.height as usize {
        n_items - start
    } else {
        area.height as usize
    };
    for k in 0..count
        invariant
            count == rows_shown(area, selected, n_items as nat),
            start == first_shown(selected, area.height),
            count <= area.height,
            count == 0 || start + count <= n_items,
            area.y + area.height <= u16::MAX,
            rows@.len() == k,
            forall|j: int|
                0 <= j < k ==> {
                    &&& (#[trigger] rows@[j]).item == start + j
                    &&& rows@[j].y == area.y + j
                    &&& rows@[j].selected == (selected == Some((start + j) as usize))
                },
    {
        let item = start + k;
        let is_selected = match selected {
            Some(s) => s == item,
            None => false,
        };
        rows.push(MenuRow { item, y: area.y + k as u16, selected: is_selected });
    }
    rows
}

/// Column where a key hint `key_width` wide starts: right-aligned in `area`.
pub fn menu_key_x(area: Rect, key_width: usize) -> (x: u16)
    requires
        area.x + area.width <= u16::MAX,
        key_width <= area.x + area.width,
    ensures
        x == area.x + area.width - key_width,
{
    ((area.x + area.width) as usize - key_width) as u16
}

} // verus!
