//! Properties that relate several operations of the terminal front end.
use vstd::prelude::*;

use crate::tui::backups::Bkp;
use crate::tui::app::App;
use crate::tui::manage_focus::{
    bkp_added, focus_step, handle_ui_spec, item_idx, menu_step, selection_matches_focus, MenuFocus,
    Focus, PopupRequest,
};
use crate::tui::model::state::manage_focus as state;
use crate::tui::my_widgets::input_line::{deleted, inserted, moved_back, moved_forward, pasted, view_wf, InputStateView};
use crate::tui::input::{UiEvent, UiPress};
use crate::tui::my_widgets::input_field::moved_coord;
use crate::tui::popup_models::{input_model_step, InputModelView};

verus! {

/// Typing a character and then deleting backwards gives back the text and
/// cursor, when the text had room for the character.
pub proof fn law_delete_undoes_insert(v: InputStateView, c: char)
    requires
        view_wf(v),
        v.text.len() < v.max_chars,
    ensures
        deleted(inserted(v, c)) == v,
{
    let w = inserted(v, c);
    assert(w.text.take(v.cursor as int) =~= v.text.take(v.cursor as int));
    assert(w.text.skip((v.cursor + 1) as int) =~= v.text.skip(v.cursor as int));
    assert(deleted(w).text =~= v.text);
}

/// A text is empty exactly when its UTF-8 encoding has no bytes, so
/// [`InputState::is_empty`](crate::tui::my_widgets::input_line::InputState::is_empty)
/// holds exactly when [`InputState::len`](crate::tui::my_widgets::input_line::InputState::len) is 0.
pub proof fn law_empty_iff_no_bytes(text: Seq<char>)
    ensures
        (text.len() == 0) <==> (vstd::utf8::encode_utf8(text).len() == 0),
{
    if text.len() > 0 {
        let e = vstd::utf8::encode_scalar(text[0] as u32);
        assert(e.len() >= 1);
        assert(vstd::utf8::encode_utf8(text) == e + vstd::utf8::encode_utf8(text.drop_first()));
    }
}

/// Typing into a full text changes nothing.
pub proof fn law_insert_when_full(v: InputStateView, c: char)
    requires
        v.text.len() >= v.max_chars,
    ensures
        inserted(v, c) == v,
{
}

/// Moving the cursor back and then forward returns it to where it was,
/// unless it was at the start; and the other way round, unless at the end.
pub proof fn law_cursor_moves_undo(v: InputStateView)
    requires
        view_wf(v),
    ensures
        v.cursor > 0 ==> moved_forward(moved_back(v)) == v,
        v.cursor < v.text.len() ==> moved_back(moved_forward(v)) == v,
{
}

/// Editing keeps the cursor within the text, and pasting never takes the
/// text past its length limit.
pub proof fn law_edits_keep_bounds(v: InputStateView, p: Seq<char>, c: char)
    requires
        view_wf(v),
        v.text.len() <= v.max_chars,
    ensures
        view_wf(pasted(v, p)),
        pasted(v, p).text.len() <= v.max_chars,
        view_wf(inserted(v, c)),
        inserted(v, c).text.len() <= v.max_chars,
        view_wf(deleted(v)),
        view_wf(moved_back(v)),
        view_wf(moved_forward(v)),
{
}

/// Adding a backup and then deleting the backup at the index it was given
/// gives back the list.
pub proof fn law_delete_undoes_add(old: Seq<Bkp>, new: Seq<Bkp>, name: Seq<char>)
    requires
        bkp_added(old, new, name),
    ensures
        new.remove(old.len() as int) == old,
{
    assert(new.remove(old.len() as int) =~= new.take(old.len() as int));
}

/// In the menu, Up undoes Down on every entry but the last, and Down
/// undoes Up on every entry but the first.
pub proof fn law_menu_up_undoes_down(m: MenuFocus)
    ensures
        m != MenuFocus::Delete ==> menu_step(menu_step(m, UiPress::Down), UiPress::Up) == m,
        m != MenuFocus::Rename ==> menu_step(menu_step(m, UiPress::Up), UiPress::Down) == m,
{
}

/// Escape closes the menu from any entry, back to the list with the same selection.
pub proof fn law_escape_closes_menu(m: MenuFocus, item: Option<usize>, len: nat)
    ensures
        focus_step(Focus::Menu(m), item, len, UiPress::Escape) == (Focus::ExplorerList, item, PopupRequest::Keep),
{
}

/// A key press in the list or on the "New" button keeps the selection
/// within the list.
pub proof fn law_focus_step_keeps_selection(focus: Focus, item: Option<usize>, len: nat, action: UiPress)
    requires
        item matches Some(i) ==> i < len,
        len <= usize::MAX,
    ensures
        focus_step(focus, item, len, action).1 matches Some(i) ==> i < len,
{
}

/// Every key press keeps the selection present exactly when the list or
/// the menu has the focus, and within the list.
pub proof fn law_focus_step_keeps_selection_present(focus: Focus, item: Option<usize>, len: nat, action: UiPress)
    requires
        selection_matches_focus(focus, item, len),
    ensures
        ({
            let (f, i, _) = focus_step(focus, item, len, action);
            selection_matches_focus(f, i, len)
        }),
{
}

/// With no popup open, a key press handled by `App::handle_ui` keeps the
/// selection present exactly when the list or the menu has the focus, and
/// within the list; the backups and the editing flag stay as they were.
pub proof fn law_key_press_keeps_selection_present(old: &App, new: &App, press: UiPress)
    requires
        old.popup is None,
        selection_matches_focus(old.focus, item_idx(old.list_item), old.conf.bkps@.len()),
        handle_ui_spec(old, new, UiEvent::Press(press)),
    ensures
        selection_matches_focus(new.focus, item_idx(new.list_item), new.conf.bkps@.len()),
        new.conf == old.conf,
        new.editing == old.editing,
{
    law_focus_step_keeps_selection_present(
        old.focus,
        item_idx(old.list_item),
        old.conf.bkps@.len(),
        press,
    );
}

/// On the backup page, Escape drops the focus from every field and button.
pub proof fn law_escape_leaves_page(focus: state::Focus, item: Option<usize>, len: nat)
    requires
        state::is_page_focus(focus),
    ensures
        state::state_focus_step(focus, item, len, state::UiAction::Escape) == (state::Focus::Nothing, item),
{
}

/// Down then Up on the fields of the backup page (name, description,
/// creation and update dates) comes back to the same field.
pub proof fn law_page_up_undoes_down(focus: state::Focus)
    requires
        focus == state::Focus::BkpName || focus == state::Focus::BkpDesc
            || focus == state::Focus::BkpCreated || focus == state::Focus::BkpUpdated,
    ensures
        state::page_step(state::page_step(focus, state::UiAction::Down), state::UiAction::Up) == focus,
{
}


/// A moved cursor coordinate stays within `0..=u16::MAX`, and it is the
/// plain sum whenever that sum lies within that range.
pub proof fn law_cursor_move_in_bounds(a: int, b: int)
    ensures
        0 <= moved_coord(a, b) <= u16::MAX,
        0 <= a + b <= u16::MAX ==> moved_coord(a, b) == a + b,
{
}

/// While the answer of an input popup is being picked, no event changes its text.
pub proof fn law_confirming_keeps_text(v: InputModelView, e: UiEvent)
    requires
        v.submit is Some,
    ensures
        input_model_step(v, e).0.input == v.input,
{
}


/// In the backup list, Down undoes Up on every backup but the first.
pub proof fn law_list_down_undoes_up(i: usize, len: nat)
    requires
        0 < i < len,
        len <= usize::MAX,
    ensures
        focus_step(Focus::ExplorerList, Some(i), len, UiPress::Up) == (
            Focus::ExplorerList,
            Some((i - 1) as usize),
            PopupRequest::Keep,
        ),
        focus_step(Focus::ExplorerList, Some((i - 1) as usize), len, UiPress::Down) == (
            Focus::ExplorerList,
            Some(i),
            PopupRequest::Keep,
        ),
{
}

} // verus!
