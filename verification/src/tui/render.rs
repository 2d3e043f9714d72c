use vstd::prelude::*;

use crate::tui::app::App;
use crate::tui::backups::Bkp;
use crate::tui::layout::{sat_sub_u16, Rect};
use crate::tui::manage_focus::Focus;

verus! {

/// The names of the backups, in list order.
pub fn names_of(bkps: &Vec<Bkp>) -> (names: Vec<&str>)
    ensures
        names@.len() == bkps@.len(),
        forall|i: int| 0 <= i < names@.len() ==> (#[trigger] names@[i])@ == bkps@[i].spec_name(),
{
    let mut names: Vec<&str> = Vec::new();
    let n = bkps.len();
    for i in 0..n
        invariant
            n == bkps@.len(),
            names@.len() == i,
            forall|j: int| 0 <= j < i ==> (#[trigger] names@[j])@ == bkps@[j].spec_name(),
    {
        names.push(bkps[i].name());
    }
    names
}

/// Width of the menu opened on a backup.
pub const MENU_WIDTH: u16 = 20;
/// Height of the menu opened on a backup.
pub const MENU_HEIGHT: u16 = 4;
/// Rows between the selected backup and the top of its menu.
pub const MENU_OFFSET_Y: u16 = 1;

/// `v` clamped to `lo..=hi`.
pub open spec fn clamp_u16(v: u16, lo: u16, hi: u16) -> u16 {
    if v < lo { lo } else if v > hi { hi } else { v }
}

/// A coordinate of a box of size `size` placed at `at` on a screen span
/// from `lo` to `hi`: it flips to the other side when it would overflow `hi`,
/// then is clamped so the box starts within `lo..=hi - size`.
pub open spec fn fit_coord(at: u16, size: u16, lo: u16, hi: u16) -> u16 {
    let flipped = if at + size <= hi { at } else { sat_sub_u16(at, size) };
    clamp_u16(flipped, lo, sat_sub_u16(hi, size))
}

/// The screen is large enough for a box of this size, and its placement
/// does not overflow.
pub open spec fn fits_on_screen(x: u16, y: u16, width: u16, height: u16, screen: Rect) -> bool {
    &&& x + width <= u16::MAX
    &&& y + height <= u16::MAX
    &&& screen.spec_left() <= sat_sub_u16(screen.spec_right(), width)
    &&& screen.spec_top() <= sat_sub_u16(screen.spec_bottom(), height)
}

/// Whether a `width` x `height` box wanted at `(x, y)` can be placed on
/// `screen`; see [`fits_on_screen`].
pub fn box_fits_on_screen(x: u16, y: u16, width: u16, height: u16, screen: Rect) -> (b: bool)
    ensures
        b == fits_on_screen(x, y, width, height, screen),
{
    x as u32 + width as u32 <= u16::MAX as u32
        && y as u32 + height as u32 <= u16::MAX as u32
        && screen.left() <= screen.right().saturating_sub(width)
        && screen.top() <= screen.bottom().saturating_sub(height)
}

fn clamp(v: u16, lo: u16, hi: u16) -> (r: u16)
    requires
        lo <= hi,
    ensures
        r == clamp_u16(v, lo, hi),
{
    if v < lo {
        lo
    } else if v > hi {
        hi
    } else {
        v
    }
}

/// Places a `width` x `height` box whose top-left corner should be at
/// `(x, y)` so that it stays on `screen`.
pub fn fit_on_screen(x: u16, y: u16, width: u16, height: u16, screen: Rect) -> (r: (u16, u16))
    requires
        fits_on_screen(x, y, width, height, screen),
    ensures
        r == (
            fit_coord(x, width, screen.spec_left(), screen.spec_right()),
            fit_coord(y, height, screen.spec_top(), screen.spec_bottom()),
        ),
        screen.x + screen.width <= u16::MAX && screen.y + screen.height <= u16::MAX
            && width <= screen.width && height <= screen.height
            ==> screen.contains_rect(Rect { x: r.0, y: r.1, width, height }),
{
    let x = if x + width <= screen.right() {
        x
    } else {
        x.saturating_sub(width)
    };
    let y = if y + height <= screen.bottom() {
        y
    } else {
        y.saturating_sub(height)
    };
    let x = clamp(x, screen.left(), screen.right().saturating_sub(width));
    let y = clamp(y, screen.top(), screen.bottom().saturating_sub(height));
    (x, y)
}

/// Top row of the menu opened on the backup at `selected`, in a list
/// scrolled by `offset` and drawn at `list_area`: one row below the
/// backup's row (the row number is taken modulo 2^16).
pub open spec fn menu_row(list_area: Rect, selected: usize, offset: usize) -> int {
    list_area.y + ((if selected >= offset { selected - offset } else { 0int }) as u16) + MENU_OFFSET_Y
}

/// Whether the menu opened on the backup at `selected` can be placed on
/// `screen`: its row does not overflow and the box fits; this is what
/// [`menu_area`] requires.
pub fn menu_fits(list_area: Rect, selected: usize, offset: usize, screen: Rect) -> (b: bool)
    ensures
        b == (menu_row(list_area, selected, offset) <= u16::MAX && fits_on_screen(
            list_area.x,
            menu_row(list_area, selected, offset) as u16,
            MENU_WIDTH,
            MENU_HEIGHT,
            screen,
        )),
{
    let row: u32 = list_area.y as u32 + (selected.saturating_sub(offset) as u16) as u32 + MENU_OFFSET_Y as u32;
    if row > u16::MAX as u32 {
        return false;
    }
    box_fits_on_screen(list_area.x, row as u16, MENU_WIDTH, MENU_HEIGHT, screen)
}

/// Where the menu opened on the selected backup is drawn: below the
/// backup's row, moved so it stays on `screen`.
pub fn menu_area(list_area: Rect, selected: usize, offset: usize, screen: Rect) -> (r: Rect)
    requires
        menu_row(list_area, selected, offset) <= u16::MAX,
        fits_on_screen(list_area.x, menu_row(list_area, selected, offset) as u16, MENU_WIDTH, MENU_HEIGHT, screen),
    ensures
        r.width == MENU_WIDTH,
        r.height == MENU_HEIGHT,
        (r.x, r.y) == (
            fit_coord(list_area.x, MENU_WIDTH, screen.spec_left(), screen.spec_right()),
            fit_coord(menu_row(list_area, selected, offset) as u16, MENU_HEIGHT, screen.spec_top(), screen.spec_bottom()),
        ),
{
    let selected_item = selected.saturating_sub(offset);
    let item_x = list_area.x;
    let item_y = list_area.y + (selected_item as u16) + MENU_OFFSET_Y;
    let (x, y) = fit_on_screen(item_x, item_y, MENU_WIDTH, MENU_HEIGHT, screen);
    Rect::new(x, y, MENU_WIDTH, MENU_HEIGHT)
}

impl App {
    pub fn is_focus(&self, focus: Focus) -> (b: bool)
        ensures
            b == (self.focus == focus),
    {
        self.focus == focus
    }

    pub fn is_editing(&self, focus: Focus) -> (b: bool)
        ensures
            b == (self.editing && self.focus == focus),
    {
        self.editing && self.is_focus(focus)
    }

    /// Whether the "New" button or the backup list has the focus.
    pub fn is_explorer_focused(&self) -> (b: bool)
        ensures
            b == (self.focus == Focus::ExplorerNew || self.focus == Focus::ExplorerList),
    {
        match self.focus {
            Focus::ExplorerNew | Focus::ExplorerList => true,
            _ => false,
        }
    }

    /// Whether the menu has the focus.
    pub fn is_menu_focused(&self) -> (b: bool)
        ensures
            b == (self.focus is Menu),
    {
        matches!(self.focus, Focus::Menu(_))
    }

    /// The backup at `idx`, if there is one.
    pub fn get_bkp(&self, idx: usize) -> (b: Option<&Bkp>)
        ensures
            b == if idx < self.conf.bkps@.len() { Some(&self.conf.bkps@[idx as int]) } else { None },
    {
        if idx < self.conf.bkps.len() {
            Some(&self.conf.bkps[idx])
        } else {
            None
        }
    }

    /// The selected backup.
    pub fn selected_bkp(&self) -> (b: &Bkp)
        requires
            self.list_item matches Some(i) && i.0 < self.conf.bkps@.len(),
        ensures
            *b == self.conf.bkps@[crate::tui::manage_focus::item_idx(self.list_item)->0 as int],
    {
        self.get_bkp(self.list_item.unwrap().idx()).unwrap()
    }

    /// The names of the backups, in list order.
    pub fn bkp_names(&self) -> (names: Vec<&str>)
        ensures
            names@.len() == self.conf.bkps@.len(),
            forall|i: int| 0 <= i < names@.len() ==> (#[trigger] names@[i])@ == self.conf.bkps@[i].spec_name(),
    {
        names_of(&self.conf.bkps)
    }
}

} // verus!
