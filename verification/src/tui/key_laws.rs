//! What the keys mean: how key codes are read, and what a key press does
//! to the focus, the menu and the popups.
use vstd::prelude::*;

use crate::tui::app::App;
use crate::tui::focus_manager as first_gen;
use crate::tui::input::event::press_of_key;
use crate::tui::input::{Key, UiEvent, UiPress};
use crate::tui::manage_focus::{
    focus_step, handle_ui_spec, item_idx, menu_index, menu_step, selection_after_delete, Focus,
    MenuFocus, PopupRequest,
};
use crate::tui::model::state::manage_focus as state;
use crate::tui::my_widgets::input_field::{action_of_key as edit_of_key, InputAction};
use crate::tui::my_widgets::popup::BinaryChoice;
use crate::tui::popup_models::{choice_after, input_model_step, InputModelCommand, InputModelView, Popup};

verus! {

/// Every key the UI reacts to is read as the press of the same name: each
/// arrow in its own direction, Enter as Enter, Esc as Escape, Tab as Tab and
/// a character as that character; Backspace and other keys are not read.
pub proof fn law_keys_read_as_themselves()
    ensures
        press_of_key(Key::Up) == Some(UiPress::Up),
        press_of_key(Key::Down) == Some(UiPress::Down),
        press_of_key(Key::Left) == Some(UiPress::Left),
        press_of_key(Key::Right) == Some(UiPress::Right),
        press_of_key(Key::Enter) == Some(UiPress::Enter),
        press_of_key(Key::Esc) == Some(UiPress::Escape),
        press_of_key(Key::Tab) == Some(UiPress::Tab),
        forall|c: char| press_of_key(Key::Char(c)) == Some(UiPress::Char(c)),
        press_of_key(Key::Backspace) is None,
        press_of_key(Key::Other) is None,
{
}

/// The navigation keys of the backup page and of the first explorer are
/// read in their own direction; characters and Backspace are not navigation.
pub proof fn law_navigation_keys_read_as_themselves()
    ensures
        state::action_of_key(Key::Up) == Some(state::UiAction::Up),
        state::action_of_key(Key::Down) == Some(state::UiAction::Down),
        state::action_of_key(Key::Left) == Some(state::UiAction::Left),
        state::action_of_key(Key::Right) == Some(state::UiAction::Right),
        state::action_of_key(Key::Enter) == Some(state::UiAction::Enter),
        state::action_of_key(Key::Esc) == Some(state::UiAction::Escape),
        state::action_of_key(Key::Tab) == Some(state::UiAction::Tab),
        forall|c: char| state::action_of_key(Key::Char(c)) is None,
        state::action_of_key(Key::Backspace) is None,
        first_gen::action_of_key(Key::Up) == Some(first_gen::UiAction::Up),
        first_gen::action_of_key(Key::Down) == Some(first_gen::UiAction::Down),
        first_gen::action_of_key(Key::Left) == Some(first_gen::UiAction::Left),
        first_gen::action_of_key(Key::Right) == Some(first_gen::UiAction::Right),
        first_gen::action_of_key(Key::Enter) == Some(first_gen::UiAction::Enter),
        first_gen::action_of_key(Key::Esc) == Some(first_gen::UiAction::Escape),
        first_gen::action_of_key(Key::Tab) == Some(first_gen::UiAction::Tab),
        forall|c: char| first_gen::action_of_key(Key::Char(c)) is None,
        first_gen::action_of_key(Key::Backspace) is None,
{
}

/// In a text field each arrow moves the cursor in its own direction,
/// Backspace deletes, a character is inserted as itself, Enter and Esc are
/// read as themselves.
pub proof fn law_edit_keys_read_as_themselves()
    ensures
        edit_of_key(Key::Up) == Some(InputAction::MoveUp),
        edit_of_key(Key::Down) == Some(InputAction::MoveDown),
        edit_of_key(Key::Left) == Some(InputAction::MoveLeft),
        edit_of_key(Key::Right) == Some(InputAction::MoveRight),
        edit_of_key(Key::Backspace) == Some(InputAction::DeleteChar),
        edit_of_key(Key::Enter) == Some(InputAction::Enter),
        edit_of_key(Key::Esc) == Some(InputAction::Escape),
        forall|c: char| edit_of_key(Key::Char(c)) == Some(InputAction::Insert(c)),
        edit_of_key(Key::Tab) is None,
{
}

/// Only Enter on the "delete" entry of the menu asks to delete the backup:
/// no other entry and no other key does, and no key outside the menu does.
/// Keys in the menu never change the selection.
pub proof fn law_only_delete_entry_asks_to_delete(
    focus: Focus,
    item: Option<usize>,
    len: nat,
    press: UiPress,
)
    ensures
        (focus_step(focus, item, len, press).2 == PopupRequest::DeleteBackup) <==> (focus
            == Focus::Menu(MenuFocus::Delete) && press == UiPress::Enter),
        focus is Menu ==> focus_step(focus, item, len, press).1 == item,
{
}

/// Only Enter on the "New" button asks for a new backup.
pub proof fn law_only_new_button_asks_for_backup(
    focus: Focus,
    item: Option<usize>,
    len: nat,
    press: UiPress,
)
    ensures
        (focus_step(focus, item, len, press).2 == PopupRequest::NewBackup) <==> (focus
            == Focus::ExplorerNew && press == UiPress::Enter),
{
}

/// The index of a menu entry is its row in the drawn menu (rename, load,
/// clone, delete, top to bottom): the first entry is row 0, the last is row
/// 3, Down moves one row down and Up one row up, within the menu.
pub proof fn law_menu_index_is_row(m: MenuFocus)
    ensures
        menu_index(MenuFocus::Rename) == 0,
        menu_index(MenuFocus::Delete) == 3,
        m != MenuFocus::Delete ==> menu_index(menu_step(m, UiPress::Down)) == menu_index(m) + 1,
        m != MenuFocus::Rename ==> menu_index(menu_step(m, UiPress::Up)) + 1 == menu_index(m),
        menu_index(m) <= 3,
{
}

/// Entering the menu puts the focus on its first row.
pub proof fn law_menu_opens_on_first_row(item: Option<usize>, len: nat)
    ensures
        focus_step(Focus::ExplorerList, item, len, UiPress::Enter).0 == Focus::Menu(
            MenuFocus::Rename,
        ),
        menu_index(MenuFocus::Rename) == 0,
{
}

/// After the backup at `i` is deleted and `n` backups are left, the
/// selection is `min(i, n - 1)`: the same position while one is left there,
/// else the new last backup, and none when the list is empty.
pub proof fn law_selection_after_delete(i: usize, n: nat)
    ensures
        n == 0 ==> selection_after_delete(i, n) is None,
        i < n ==> selection_after_delete(i, n) == Some(i),
        0 < n <= i ==> selection_after_delete(i, n) == Some((n - 1) as usize),
{
}

/// Confirming the deletion of the selected backup at `i` removes exactly
/// that backup, and the selection stays at position `i` when a backup is
/// left there, moves to the new last backup otherwise, and is cleared when
/// no backup is left; the popup closes and the focus stays.
pub proof fn law_confirmed_delete(old: &App, new: &App, i: usize)
    requires
        old.popup == Some(Popup::DeleteBackup(BinaryChoice::Yes)),
        item_idx(old.list_item) == Some(i),
        i < old.conf.bkps@.len(),
        handle_ui_spec(old, new, UiEvent::Press(UiPress::Enter)),
    ensures
        new.conf.bkps@ == old.conf.bkps@.take(i as int) + old.conf.bkps@.skip(i + 1),
        i < new.conf.bkps@.len() ==> item_idx(new.list_item) == Some(i),
        0 < new.conf.bkps@.len() <= i ==> item_idx(new.list_item) == Some(
            (new.conf.bkps@.len() - 1) as usize,
        ),
        new.conf.bkps@.len() == 0 ==> new.list_item is None,
        new.popup is None,
        new.focus == old.focus,
{
    assert(old.conf.bkps@.remove(i as int) =~= old.conf.bkps@.take(i as int) + old.conf.bkps@.skip(
        i + 1,
    ));
    law_selection_after_delete(i, new.conf.bkps@.len());
}

/// Declining a deletion keeps every backup and the selection.
pub proof fn law_declined_delete(old: &App, new: &App)
    requires
        old.popup == Some(Popup::DeleteBackup(BinaryChoice::No)),
        handle_ui_spec(old, new, UiEvent::Press(UiPress::Enter)),
    ensures
        new.conf.bkps@ == old.conf.bkps@,
        new.list_item == old.list_item,
        new.popup is None,
{
}

/// In a yes/no popup Left picks yes, Right picks no, and no other press
/// changes the answer.
pub proof fn law_left_is_yes_right_is_no(c: BinaryChoice, press: UiPress)
    ensures
        choice_after(c, UiPress::Left) == BinaryChoice::Yes,
        choice_after(c, UiPress::Right) == BinaryChoice::No,
        press != UiPress::Left && press != UiPress::Right ==> choice_after(c, press) == c,
{
}

/// The steps of an input popup: while typing, Escape closes it and Enter
/// asks for confirmation with yes picked, both leaving the text as it is;
/// once asked, Enter on yes confirms the text, Enter on no goes back to
/// typing, and the text never changes.
pub proof fn law_input_popup_steps(v: InputModelView, e: UiEvent)
    ensures
        v.submit is None ==> input_model_step(v, UiEvent::Press(UiPress::Escape)) == (
            v,
            InputModelCommand::Close,
        ),
        v.submit is None ==> input_model_step(v, UiEvent::Press(UiPress::Enter)) == (
            InputModelView { submit: Some(BinaryChoice::Yes), ..v },
            InputModelCommand::Nothing,
        ),
        v.submit == Some(BinaryChoice::Yes) ==> input_model_step(v, UiEvent::Press(UiPress::Enter))
            == (v, InputModelCommand::ConfirmInput),
        v.submit == Some(BinaryChoice::No) ==> input_model_step(v, UiEvent::Press(UiPress::Enter))
            == (InputModelView { submit: None, ..v }, InputModelCommand::Nothing),
        (input_model_step(v, e).1 == InputModelCommand::ConfirmInput) <==> (v.submit == Some(
            BinaryChoice::Yes,
        ) && e == UiEvent::Press(UiPress::Enter)),
        (input_model_step(v, e).1 == InputModelCommand::Close) <==> (v.submit is None && e
            == UiEvent::Press(UiPress::Escape)),
{
}

/// In the backup list Up moves the selection one backup up and Down one
/// backup down; from "New", Down selects the first backup and Up the last.
pub proof fn law_list_keys_move_in_their_direction(i: usize, len: nat)
    requires
        i < len,
        len <= usize::MAX,
    ensures
        0 < i ==> focus_step(Focus::ExplorerList, Some(i), len, UiPress::Up).1 == Some((i - 1) as usize),
        i + 1 < len ==> focus_step(Focus::ExplorerList, Some(i), len, UiPress::Down).1 == Some(
            (i + 1) as usize,
        ),
        focus_step(Focus::ExplorerNew, None, len, UiPress::Down).1 == Some(0usize),
        focus_step(Focus::ExplorerNew, None, len, UiPress::Up).1 == Some((len - 1) as usize),
{
}

/// On the backup page's explorer list, Up moves the selection one backup up
/// and Down one backup down (stopping at the last).
pub proof fn law_page_list_keys_move_in_their_direction(i: usize, len: nat)
    requires
        i < len,
        len <= usize::MAX,
    ensures
        0 < i ==> state::state_focus_step(state::Focus::ExplorerList, Some(i), len, state::UiAction::Up)
            == (state::Focus::ExplorerList, Some((i - 1) as usize)),
        i + 1 < len ==> state::state_focus_step(
            state::Focus::ExplorerList,
            Some(i),
            len,
            state::UiAction::Down,
        ) == (state::Focus::ExplorerList, Some((i + 1) as usize)),
        i + 1 == len ==> state::state_focus_step(
            state::Focus::ExplorerList,
            Some(i),
            len,
            state::UiAction::Down,
        ) == (state::Focus::ExplorerList, Some(i)),
{
}

/// Enter on the name or description field of the backup page starts
/// editing it; no other key on any focus starts editing, and no key stops it.
pub proof fn law_enter_starts_editing(focus: state::Focus, editing: bool, action: state::UiAction)
    ensures
        (focus == state::Focus::BkpName || focus == state::Focus::BkpDesc) ==> state::editing_after(
            focus,
            editing,
            state::UiAction::Enter,
        ),
        !(action == state::UiAction::Enter && (focus == state::Focus::BkpName || focus
            == state::Focus::BkpDesc)) ==> state::editing_after(focus, editing, action) == editing,
{
}

/// Moving between the explorer and the backup page: Left (or Enter or Tab)
/// focuses the explorer when nothing is focused, Right goes to the page's
/// name field from there and from the explorer; in the explorer, Down goes
/// to "New", Down or Tab on "New" selects the first backup, Enter in the
/// list opens that backup's page; Left on a field of the page returns to the
/// list. The selection only changes when "New" selects the first backup.
pub proof fn law_explorer_and_page_navigation(item: Option<usize>, len: nat)
    ensures
        state::state_focus_step(state::Focus::Nothing, item, len, state::UiAction::Left) == (
            state::Focus::Explorer,
            item,
        ),
        state::state_focus_step(state::Focus::Nothing, item, len, state::UiAction::Right) == (
            state::Focus::BkpName,
            item,
        ),
        state::state_focus_step(state::Focus::Explorer, item, len, state::UiAction::Right) == (
            state::Focus::BkpName,
            item,
        ),
        state::state_focus_step(state::Focus::Explorer, item, len, state::UiAction::Down) == (
            state::Focus::ExplorerNew,
            item,
        ),
        state::state_focus_step(state::Focus::ExplorerNew, item, len, state::UiAction::Down) == (
            state::Focus::ExplorerList,
            Some(0usize),
        ),
        state::state_focus_step(state::Focus::ExplorerList, item, len, state::UiAction::Enter) == (
            state::Focus::BkpName,
            item,
        ),
        state::page_step(state::Focus::BkpName, state::UiAction::Left) == state::Focus::ExplorerList,
        state::page_step(state::Focus::BkpDesc, state::UiAction::Left) == state::Focus::ExplorerList,
        state::page_step(state::Focus::BkpCreated, state::UiAction::Left) == state::Focus::ExplorerList,
        state::page_step(state::Focus::BkpUpdated, state::UiAction::Left) == state::Focus::ExplorerList,
{
}

/// Down walks the fields of the backup page in the order they are shown
/// (name, description, creation date, update date) and Up walks back.
pub proof fn law_page_fields_in_order()
    ensures
        state::page_step(state::Focus::BkpName, state::UiAction::Down) == state::Focus::BkpDesc,
        state::page_step(state::Focus::BkpDesc, state::UiAction::Down) == state::Focus::BkpCreated,
        state::page_step(state::Focus::BkpCreated, state::UiAction::Down) == state::Focus::BkpUpdated,
        state::page_step(state::Focus::BkpUpdated, state::UiAction::Up) == state::Focus::BkpCreated,
        state::page_step(state::Focus::BkpCreated, state::UiAction::Up) == state::Focus::BkpDesc,
        state::page_step(state::Focus::BkpDesc, state::UiAction::Up) == state::Focus::BkpName,
{
}

} // verus!
