use vstd::prelude::*;

use crate::date::is_clock_time;
use crate::tui::app::App;
use crate::tui::backups::{Bkp, RegisteredBkp};
use crate::tui::input::{UiEvent, UiPress};
use crate::tui::my_widgets::popup::BinaryChoice;
use crate::tui::popup_models::{
    choice_after, handle_bchoice_ui, input_model_step, InputModel, InputModelCommand, Popup,
};

verus! {

/// Position of the selected backup in the explorer list.
#[derive(Debug, Clone, Copy, PartialEq, Eq, PartialOrd, Ord, Structural)]
pub struct ExplorerListItem(pub usize);

impl ExplorerListItem {
    pub fn idx(self) -> (i: usize)
        ensures
            i == self.0,
    {
        self.0
    }

    /// The item below, saturating at `usize::MAX`.
    pub fn next(self) -> (n: ExplorerListItem)
        ensures
            n.0 == if self.0 < usize::MAX { self.0 + 1 } else { self.0 as int },
    {
        ExplorerListItem::from(self.idx().saturating_add(1))
    }

    /// The item above, saturating at 0.
    pub fn prev(self) -> (p: ExplorerListItem)
        ensures
            p.0 == if self.0 > 0 { self.0 - 1 } else { 0 },
    {
        ExplorerListItem::from(self.idx().saturating_sub(1))
    }
}

impl From<usize> for ExplorerListItem {
    fn from(value: usize) -> (item: Self) {
        Self(value)
    }
}

impl vstd::std_specs::convert::FromSpecImpl<usize> for ExplorerListItem {
    open spec fn obeys_from_spec() -> bool {
        true
    }

    open spec fn from_spec(v: usize) -> Self {
        ExplorerListItem(v)
    }
}

/// The entries of the menu opened on a backup, top to bottom.
#[derive(Debug, Clone, Copy, PartialEq, Eq, PartialOrd, Ord, Structural)]
pub enum MenuFocus {
    Rename,
    Load,
    Clone,
    Delete,
}

impl Default for MenuFocus {
    fn default() -> (m: Self)
        ensures
            m == MenuFocus::Rename,
    {
        MenuFocus::Rename
    }
}

/// What has the focus: the backup list, the "New" button, or an entry of
/// the menu opened on the selected backup.
#[derive(Debug, Clone, Copy, PartialEq, Eq, PartialOrd, Ord, Structural)]
pub enum Focus {
    ExplorerList,
    ExplorerNew,
    Menu(MenuFocus),
}

impl Default for Focus {
    fn default() -> (f: Self)
        ensures
            f == Focus::ExplorerList,
    {
        Focus::ExplorerList
    }
}

/// Position of a menu entry, counting from 0 at the top.
pub open spec fn menu_index(m: MenuFocus) -> usize {
    match m {
        MenuFocus::Rename => 0,
        MenuFocus::Load => 1,
        MenuFocus::Clone => 2,
        MenuFocus::Delete => 3,
    }
}

impl Focus {
    /// The position of the focused menu entry, when the menu has the focus.
    pub fn as_menu_index(self) -> (r: Option<usize>)
        ensures
            r == match self {
                Focus::Menu(m) => Some(menu_index(m)),
                _ => None,
            },
    {
        if let Focus::Menu(focus) = self {
            Some(
                match focus {
                    MenuFocus::Rename => 0,
                    MenuFocus::Load => 1,
                    MenuFocus::Clone => 2,
                    MenuFocus::Delete => 3,
                },
            )
        } else {
            None
        }
    }
}

/// Index of the last backup of a list of `len` (0 for an empty list).
pub open spec fn last_index(len: nat) -> nat {
    if len == 0 { 0 } else { (len - 1) as nat }
}

/// A popup that a key press opens.
#[derive(Debug, Clone, Copy, PartialEq, Eq, Structural)]
pub enum PopupRequest {
    Keep,
    NewBackup,
    DeleteBackup,
}

/// The menu entry after a press: Down and Up walk the entries without
/// wrapping; everything else stays.
pub open spec fn menu_step(m: MenuFocus, action: UiPress) -> MenuFocus {
    match m {
        MenuFocus::Rename => match action {
            UiPress::Down => MenuFocus::Load,
            _ => MenuFocus::Rename,
        },
        MenuFocus::Load => match action {
            UiPress::Down => MenuFocus::Clone,
            UiPress::Up => MenuFocus::Rename,
            _ => MenuFocus::Load,
        },
        MenuFocus::Clone => match action {
            UiPress::Down => MenuFocus::Delete,
            UiPress::Up => MenuFocus::Load,
            _ => MenuFocus::Clone,
        },
        MenuFocus::Delete => match action {
            UiPress::Up => MenuFocus::Clone,
            _ => MenuFocus::Delete,
        },
    }
}

/// One step of the focus, with no popup open: the new focus, the new
/// selected backup, and the popup the press opens, for a list of `len` backups.
///
/// On "New": Up goes to the last backup and Tab/Down to the first (when
/// there are backups), Enter opens the new-backup popup. In the list: Up
/// and Down move the selection, leaving it for "New" past either end; Tab
/// goes to "New"; Enter opens the menu. In the menu: Escape closes it, Up
/// and Down walk the entries, Enter on "delete" asks for confirmation.
pub open spec fn focus_step(focus: Focus, item: Option<usize>, len: nat, action: UiPress) -> (
    Focus,
    Option<usize>,
    PopupRequest,
) {
    match focus {
        Focus::ExplorerNew => if action == UiPress::Up && len > 0 {
            (Focus::ExplorerList, Some(last_index(len) as usize), PopupRequest::Keep)
        } else if (action == UiPress::Tab || action == UiPress::Down) && len > 0 {
            (Focus::ExplorerList, Some(0usize), PopupRequest::Keep)
        } else if action == UiPress::Enter {
            (Focus::ExplorerNew, item, PopupRequest::NewBackup)
        } else {
            (Focus::ExplorerNew, item, PopupRequest::Keep)
        },
        Focus::ExplorerList => match action {
            UiPress::Up => match item {
                Some(i) => if i == 0 {
                    (Focus::ExplorerNew, None, PopupRequest::Keep)
                } else {
                    (Focus::ExplorerList, Some((i - 1) as usize), PopupRequest::Keep)
                },
                None => (Focus::ExplorerNew, item, PopupRequest::Keep),
            },
            UiPress::Enter => (Focus::Menu(MenuFocus::Rename), item, PopupRequest::Keep),
            UiPress::Down => match item {
                Some(i) => if i == last_index(len) {
                    (Focus::ExplorerNew, None, PopupRequest::Keep)
                } else {
                    let next = if i < usize::MAX { i + 1 } else { i as int };
                    let next = if next <= last_index(len) { next } else { last_index(len) as int };
                    (Focus::ExplorerList, Some(next as usize), PopupRequest::Keep)
                },
                None => (Focus::ExplorerNew, item, PopupRequest::Keep),
            },
            UiPress::Tab => (Focus::ExplorerNew, None, PopupRequest::Keep),
            _ => (Focus::ExplorerList, item, PopupRequest::Keep),
        },
        Focus::Menu(m) => if action == UiPress::Escape {
            (Focus::ExplorerList, item, PopupRequest::Keep)
        } else if m == MenuFocus::Delete && action == UiPress::Enter {
            (Focus::Menu(MenuFocus::Delete), item, PopupRequest::DeleteBackup)
        } else {
            (Focus::Menu(menu_step(m, action)), item, PopupRequest::Keep)
        },
    }
}

/// The selection is present exactly when the "New" button does not have
/// the focus, and then it points at a backup of a list of `len`.
pub open spec fn selection_matches_focus(focus: Focus, item: Option<usize>, len: nat) -> bool {
    &&& (focus == Focus::ExplorerNew) == (item is None)
    &&& item matches Some(i) ==> i < len
}

/// An input popup just opened: no answer picked and empty text with the
/// cursor at the start and no length limit.
pub open spec fn is_fresh_input(m: InputModel) -> bool {
    &&& m.submit is None
    &&& m.input@.text.len() == 0
    &&& m.input@.cursor == 0
    &&& m.input@.max_chars == usize::MAX
}

/// The popup after a press that requested `req`.
pub open spec fn popup_after(old: Option<Popup>, new: Option<Popup>, req: PopupRequest) -> bool {
    match req {
        PopupRequest::Keep => new == old,
        PopupRequest::NewBackup => new matches Some(Popup::NewBackup(m)) && is_fresh_input(m),
        PopupRequest::DeleteBackup => new == Some(Popup::DeleteBackup(BinaryChoice::Yes)),
    }
}

/// The selected index.
pub open spec fn item_idx(item: Option<ExplorerListItem>) -> Option<usize> {
    match item {
        Some(i) => Some(i.0),
        None => None,
    }
}

/// `new` is `old` with a backup called `name` added at the end: no
/// description and never updated.
pub open spec fn bkp_added(old: Seq<Bkp>, new: Seq<Bkp>, name: Seq<char>) -> bool {
    &&& new.len() == old.len() + 1
    &&& new.take(old.len() as int) == old
    &&& new.last() matches Bkp::Registered(b) && b.name@ == name && b.desc@.len() == 0
        && b.update_date is None && is_clock_time(b.creation_date)
}

impl App {
    pub fn list_item_idx(&self) -> (r: Option<usize>)
        ensures
            r == item_idx(self.list_item),
    {
        match self.list_item {
            Some(item) => Some(item.idx()),
            None => None,
        }
    }

    fn last_list_item(&self) -> (item: ExplorerListItem)
        ensures
            item.0 == last_index(self.conf.bkps@.len()),
    {
        ExplorerListItem::from(self.conf.bkps.len().saturating_sub(1))
    }

    /// Handles a key press when no popup is open: moves the focus and the
    /// selection as [`focus_step`] says and opens the popup it asks for. The
    /// selection stays present exactly when the list or the menu has the
    /// focus, and within the list (see [`selection_matches_focus`]).
    pub fn handle_ui_focus(&mut self, action: UiPress)
        ensures
            ({
                let (f, item, req) = focus_step(
                    old(self).focus,
                    item_idx(old(self).list_item),
                    old(self).conf.bkps@.len(),
                    action,
                );
                &&& final(self).focus == f
                &&& item_idx(final(self).list_item) == item
                &&& popup_after(old(self).popup, final(self).popup, req)
            }),
            final(self).conf == old(self).conf,
            final(self).editing == old(self).editing,
            selection_matches_focus(old(self).focus, item_idx(old(self).list_item), old(self).conf.bkps@.len())
                ==> selection_matches_focus(final(self).focus, item_idx(final(self).list_item), final(self).conf.bkps@.len()),
    {
        let ghost len = self.conf.bkps@.len();
        proof {
            if selection_matches_focus(self.focus, item_idx(self.list_item), len) {
                crate::tui::laws::law_focus_step_keeps_selection_present(
                    self.focus,
                    item_idx(self.list_item),
                    len,
                    action,
                );
            }
        }
        self.focus = match self.focus {
            Focus::ExplorerNew => if action == UiPress::Up && !self.bkps_empty() {
                self.list_item = Some(self.last_list_item());
                Focus::ExplorerList  // item above the new button
            } else if (action == UiPress::Tab || action == UiPress::Down) && !self.bkps_empty() {
                self.list_item = Some(ExplorerListItem::from(0));
                Focus::ExplorerList  // beginning of the list
            } else if action == UiPress::Enter {
                self.popup = Some(Popup::NewBackup(InputModel::default()));
                Focus::ExplorerNew
            } else {
                Focus::ExplorerNew
            },
            Focus::ExplorerList => match action {
                UiPress::Up => {
                    if let Some(item) = self.list_item {
                        if item.idx() == 0 {
                            self.list_item = None;
                            Focus::ExplorerNew
                        } else {
                            self.list_item = Some(item.prev());
                            Focus::ExplorerList
                        }
                    } else {
                        Focus::ExplorerNew
                    }
                },
                UiPress::Enter => Focus::Menu(MenuFocus::default()),
                UiPress::Down => {
                    if let Some(item) = self.list_item {
                        let last_idx = self.last_list_item().idx();
                        if item.idx() == last_idx {
                            self.list_item = None;
                            Focus::ExplorerNew
                        } else {
                            let next = item.next();
                            self.list_item = Some(
                                if next.idx() <= last_idx {
                                    next
                                } else {
                                    ExplorerListItem::from(last_idx)
                                },
                            );
                            Focus::ExplorerList
                        }
                    } else {
                        Focus::ExplorerNew
                    }
                },
                UiPress::Tab => {
                    self.list_item = None;
                    Focus::ExplorerNew
                },
                _ => Focus::ExplorerList,
            },
            Focus::Menu(_) if action == UiPress::Escape => Focus::ExplorerList,
            Focus::Menu(menu) => Focus::Menu(
                match menu {
                    MenuFocus::Rename => match action {
                        UiPress::Down => MenuFocus::Load,
                        _ => MenuFocus::Rename,
                    },
                    MenuFocus::Load => match action {
                        UiPress::Down => MenuFocus::Clone,
                        UiPress::Up => MenuFocus::Rename,
                        _ => MenuFocus::Load,
                    },
                    MenuFocus::Clone => match action {
                        UiPress::Down => MenuFocus::Delete,
                        UiPress::Up => MenuFocus::Load,
                        _ => MenuFocus::Clone,
                    },
                    MenuFocus::Delete => match action {
                        UiPress::Up => MenuFocus::Clone,
                        UiPress::Enter => {
                            self.popup = Some(Popup::DeleteBackup(BinaryChoice::Yes));
                            MenuFocus::Delete
                        },
                        _ => MenuFocus::Delete,
                    },
                },
            ),
        };
    }
}


/// The selection after deleting the backup at `i`, for `new_len` backups
/// left: nothing when the list is empty, else the same position, or the new
/// last backup when `i` was the last.
pub open spec fn selection_after_delete(i: usize, new_len: nat) -> Option<usize> {
    if new_len == 0 {
        None
    } else if i <= last_index(new_len) {
        Some(i)
    } else {
        Some(last_index(new_len) as usize)
    }
}

/// Everything but the popup is the same.
pub open spec fn same_but_popup(old: &App, new: &App) -> bool {
    &&& new.conf == old.conf
    &&& new.focus == old.focus
    &&& new.editing == old.editing
    &&& new.list_item == old.list_item
}

/// A confirmed deletion with no backup selected (or a selection past the
/// end of the list).
pub open spec fn delete_target_missing(app: &App, event: UiEvent) -> bool {
    &&& app.popup == Some(Popup::DeleteBackup(BinaryChoice::Yes))
    &&& event == UiEvent::Press(UiPress::Enter)
    &&& !(app.list_item matches Some(i) && i.0 < app.conf.bkps@.len())
}

/// What [`App::handle_ui`] does.
///
/// With a new-backup popup open, the event goes to the popup; when the popup
/// confirms its text a backup of that name is added at the end of the list,
/// selected and focused, and the popup closes. With a delete popup open, Enter
/// answers it: yes deletes the selected backup and moves the selection to the
/// same position (or the new last backup, or nothing when none is left); the
/// popup closes either way. Left/Right pick the answer; pastes are ignored.
/// With no popup, key presses move the focus as [`focus_step`] says.
pub open spec fn handle_ui_spec(old: &App, new: &App, event: UiEvent) -> bool {
    match old.popup {
        None => match event {
            UiEvent::Press(p) => {
                let (f, item, req) = focus_step(old.focus, item_idx(old.list_item), old.conf.bkps@.len(), p);
                &&& new.focus == f
                &&& item_idx(new.list_item) == item
                &&& popup_after(old.popup, new.popup, req)
                &&& new.conf == old.conf
                &&& new.editing == old.editing
            },
            UiEvent::Paste(_) => new == old,
        },
        Some(Popup::NewBackup(m)) => {
            let (m2, cmd) = input_model_step(m@, event);
            match cmd {
                InputModelCommand::Nothing => {
                    &&& new.popup matches Some(Popup::NewBackup(nm)) && nm@ == m2
                    &&& same_but_popup(old, new)
                },
                InputModelCommand::Close => {
                    &&& new.popup is None
                    &&& same_but_popup(old, new)
                },
                InputModelCommand::ConfirmInput => {
                    &&& bkp_added(old.conf.bkps@, new.conf.bkps@, m@.input.text)
                    &&& new.conf.deltarune_path == old.conf.deltarune_path
                    &&& new.conf.app_path == old.conf.app_path
                    &&& item_idx(new.list_item) == Some(old.conf.bkps@.len() as usize)
                    &&& new.focus == Focus::ExplorerList
                    &&& new.editing == old.editing
                    &&& new.popup is None
                },
            }
        },
        Some(Popup::DeleteBackup(c)) => match event {
            UiEvent::Press(UiPress::Enter) => {
                &&& new.popup is None
                &&& new.focus == old.focus
                &&& new.editing == old.editing
                &&& if c.as_bool() {
                    let i = item_idx(old.list_item)->0;
                    &&& new.conf.bkps@ == old.conf.bkps@.remove(i as int)
                    &&& new.conf.deltarune_path == old.conf.deltarune_path
                    &&& new.conf.app_path == old.conf.app_path
                    &&& item_idx(new.list_item) == selection_after_delete(i, new.conf.bkps@.len())
                } else {
                    &&& new.conf == old.conf
                    &&& new.list_item == old.list_item
                }
            },
            UiEvent::Press(p) => {
                &&& new.popup == Some(Popup::DeleteBackup(choice_after(c, p)))
                &&& same_but_popup(old, new)
            },
            UiEvent::Paste(_) => new == old,
        },
    }
}

impl App {
    /// Whether `event` would confirm a deletion with no backup to delete,
    /// which [`App::handle_ui`] cannot carry out; see [`delete_target_missing`].
    pub fn misses_delete_target(&self, event: &UiEvent) -> (b: bool)
        ensures
            b == delete_target_missing(self, *event),
    {
        let confirming = match &self.popup {
            Some(Popup::DeleteBackup(BinaryChoice::Yes)) => match event {
                UiEvent::Press(UiPress::Enter) => true,
                _ => false,
            },
            _ => false,
        };
        if !confirming {
            return false;
        }
        match self.list_item {
            Some(item) => item.idx() >= self.conf.bkps.len(),
            None => true,
        }
    }

    /// Handles a UI event; see [`handle_ui_spec`].
    pub fn handle_ui(&mut self, event: UiEvent)
        requires
            !delete_target_missing(old(self), event),
        ensures
            old(self).wf() ==> final(self).wf(),
            handle_ui_spec(old(self), final(self), event),
    {
        if let Some(popup) = &mut self.popup {
            match popup {
                Popup::NewBackup(model) => match model.handle_ui_event(event) {
                    InputModelCommand::Close => self.popup = None,
                    InputModelCommand::ConfirmInput => {
                        let bkp_name = model.input.take_buf();
                        let new_list_idx = self.create_registered_bkp(bkp_name);

                        // switch focus to the new backup page
                        self.list_item = Some(ExplorerListItem::from(new_list_idx));
                        self.focus = Focus::ExplorerList;

                        // clear the popup, string buffer data is taken.
                        self.popup = None;
                    },
                    InputModelCommand::Nothing => {},
                },
                Popup::DeleteBackup(choice) => {
                    if let UiEvent::Press(press) = event {
                        if let Some(handled_choice) = handle_bchoice_ui(choice, press) {
                            if handled_choice.confirmed() {
                                let current_list_item = self.list_item.unwrap();
                                self.delete_bkp(current_list_item.idx());

                                self.list_item = if self.conf.bkps.len() == 0 {
                                    None
                                } else {
                                    // move back by 1 bkp
                                    let last = self.last_list_item();
                                    Some(
                                        if current_list_item.idx() <= last.idx() {
                                            current_list_item
                                        } else {
                                            last
                                        },
                                    )
                                };
                            }
                            self.popup = None;
                        }
                    }
                },
            }
            return;
        }
        if let UiEvent::Press(press) = event {
            self.handle_ui_focus(press);
        }
    }
}

} // verus!
