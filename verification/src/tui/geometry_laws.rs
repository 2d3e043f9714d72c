//! What the layout arithmetic of the widgets achieves, stated over the
//! rectangles themselves.
use vstd::prelude::*;

use crate::tui::layout::{sat_sub_u16, Rect};
use crate::tui::my_widgets::button::{label_area, padded, simple_layout};
use crate::tui::my_widgets::menu::{first_shown, shortened};
use crate::tui::render::{fit_coord, menu_row, MENU_OFFSET_Y};

verus! {

/// Padding is even: the margin on the left equals the one on the right and
/// the margin on top equals the one at the bottom. Each margin is the padding
/// asked for when twice of it fits, else half the size (rounded down).
pub proof fn law_padding_is_even(x: u16, y: u16, rect: Rect)
    requires
        rect.x + rect.width <= u16::MAX,
        rect.y + rect.height <= u16::MAX,
    ensures
        ({
            let r = padded(x, y, rect);
            &&& r.x - rect.x == (rect.x + rect.width) - (r.x + r.width)
            &&& r.y - rect.y == (rect.y + rect.height) - (r.y + r.height)
            &&& 2 * x <= rect.width ==> r.x - rect.x == x
            &&& 2 * y <= rect.height ==> r.y - rect.y == y
            &&& 2 * x > rect.width ==> r.x - rect.x == rect.width / 2
            &&& 2 * y > rect.height ==> r.y - rect.y == rect.height / 2
        }),
{
}

/// A button's label sits on the middle row of the padded area, as wide as
/// the label, with as many free columns on its left as on its right (one
/// more on the right when the difference is odd).
pub proof fn law_label_is_centred(inner: Rect, line_width: usize)
    requires
        line_width <= inner.width,
        inner.x + inner.width <= u16::MAX,
        inner.y + inner.height / 2 <= u16::MAX,
    ensures
        ({
            let l = label_area(inner, line_width);
            let left = l.x - inner.x;
            let right = (inner.x + inner.width) - (l.x + l.width);
            &&& l.width == line_width
            &&& l.height == 1
            &&& l.y == inner.y + inner.height / 2
            &&& left <= right <= left + 1
        }),
{
}

/// A bracketed button has its brackets on the first and last column of its
/// area, on the top row, and its label runs from after the padding to the
/// area's right edge.
pub proof fn law_simple_button_brackets(area: crate::tui::layout::Rect, min_x_pad: u16)
    requires
        1 <= area.x + area.width <= u16::MAX,
        area.x + min_x_pad + 1 <= u16::MAX,
        min_x_pad + 1 <= area.width,
    ensures
        ({
            let (l, r, label) = simple_layout(area, min_x_pad);
            &&& l.x == area.x && l.y == area.y
            &&& r.x + 1 == area.x + area.width && r.y == area.y
            &&& label.x == area.x + min_x_pad + 1
            &&& label.x + label.width == area.x + area.width
            &&& label.y == area.y && label.height == area.height
        }),
{
}

/// A menu `height` rows high shows the selected entry: it lies between the
/// first shown entry and the last row; no scrolling happens while the
/// selection is on the first screen.
pub proof fn law_menu_keeps_selection_visible(s: usize, height: u16)
    requires
        height >= 1,
    ensures
        first_shown(Some(s), height) <= s < first_shown(Some(s), height) + height,
        s < height ==> first_shown(Some(s), height) == 0,
        first_shown(None, height) == 0,
{
}

/// A menu label always fits its row beside the key hint: kept whole when it
/// fits, else cut to exactly the room left, its leading characters kept and
/// the last one turned into `.`.
pub proof fn law_menu_label_fits(text: Seq<char>, key_width: nat, gap: nat, width: nat)
    requires
        key_width + gap <= width,
    ensures
        shortened(text, text.len(), key_width, gap, width).len() + key_width + gap <= width,
        text.len() + key_width + gap <= width ==> shortened(text, text.len(), key_width, gap, width)
            == text,
        text.len() + key_width + gap > width && width - gap - key_width > 0 ==> {
            let s = shortened(text, text.len(), key_width, gap, width);
            let n = width - gap - key_width;
            &&& s.len() == n
            &&& s.last() == '.'
            &&& s.take(n - 1) == text.take(n - 1)
        },
{
}

/// A box placed along one axis stays where it was asked for when it fits
/// there, and always ends up within the span when the span is wide enough
/// for it.
pub proof fn law_fit_coord_keeps_box_on_screen(at: u16, size: u16, lo: u16, hi: u16)
    ensures
        lo <= sat_sub_u16(hi, size) ==> lo <= fit_coord(at, size, lo, hi) <= sat_sub_u16(hi, size),
        lo <= at && at + size <= hi ==> fit_coord(at, size, lo, hi) == at,
{
}

/// The menu opened on a backup starts on the row just below that backup's
/// row in the list.
pub proof fn law_menu_opens_below_selected_row(list_area: Rect, selected: usize, offset: usize)
    requires
        offset <= selected,
        selected - offset <= u16::MAX,
    ensures
        menu_row(list_area, selected, offset) == list_area.y + (selected - offset) + 1,
        MENU_OFFSET_Y == 1,
{
}

} // verus!
