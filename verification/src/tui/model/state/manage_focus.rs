use vstd::prelude::*;

use crate::tui::input::Key;
use crate::tui::model::state::State;

verus! {

/// Position of the selected backup in the explorer list.
#[derive(Debug, Clone, Copy, PartialEq, Eq, PartialOrd, Ord, Structural)]
pub struct ExplorerListItem(pub usize);

impl ExplorerListItem {
    pub fn idx(self) -> (i: usize)
        ensures
            i == self.0,
    {
        self.0
    }

    /// The item below, saturating at `usize::MAX`.
    pub fn next(self) -> (n: ExplorerListItem)
        ensures
            n.0 == if self.0 < usize::MAX { self.0 + 1 } else { self.0 as int },
    {
        ExplorerListItem::from(self.idx().saturating_add(1))
    }

    /// The item above, saturating at 0.
    pub fn prev(self) -> (p: ExplorerListItem)
        ensures
            p.0 == if self.0 > 0 { self.0 - 1 } else { 0 },
    {
        ExplorerListItem::from(self.idx().saturating_sub(1))
    }
}

impl From<usize> for ExplorerListItem {
    fn from(value: usize) -> (item: Self) {
        Self(value)
    }
}

impl vstd::std_specs::convert::FromSpecImpl<usize> for ExplorerListItem {
    open spec fn obeys_from_spec() -> bool {
        true
    }

    open spec fn from_spec(v: usize) -> Self {
        ExplorerListItem(v)
    }
}

/// What has the focus: nothing, the explorer block, its "New" button or its
/// list, or one of the fields and buttons of the backup page.
#[derive(Debug, Clone, Copy, PartialEq, Eq, PartialOrd, Ord, Structural)]
pub enum Focus {
    Nothing,
    Explorer,
    ExplorerList,
    ExplorerNew,
    BkpName,
    BkpDesc,
    BkpCreated,
    BkpUpdated,
    BkpDelete,
    BkpLoad,
    BkpDuplicate,
    BkpReplace,
}

impl Default for Focus {
    fn default() -> (f: Self)
        ensures
            f == Focus::Nothing,
    {
        Focus::Nothing
    }
}

/// A navigation key.
#[derive(Debug, Clone, Copy, PartialEq, Eq, PartialOrd, Ord, Structural)]
pub enum UiAction {
    Right,
    Left,
    Up,
    Down,
    Enter,
    Escape,
    Tab,
}

/// The navigation key a key code stands for.
pub open spec fn action_of_key(code: Key) -> Option<UiAction> {
    match code {
        Key::Right => Some(UiAction::Right),
        Key::Left => Some(UiAction::Left),
        Key::Up => Some(UiAction::Up),
        Key::Down => Some(UiAction::Down),
        Key::Enter => Some(UiAction::Enter),
        Key::Esc => Some(UiAction::Escape),
        Key::Tab => Some(UiAction::Tab),
        _ => None,
    }
}

impl UiAction {
    pub fn parse(code: Key) -> (a: Option<Self>)
        ensures
            a == action_of_key(code),
    {
        match code {
            Key::Right => Some(UiAction::Right),
            Key::Left => Some(UiAction::Left),
            Key::Up => Some(UiAction::Up),
            Key::Down => Some(UiAction::Down),
            Key::Enter => Some(UiAction::Enter),
            Key::Esc => Some(UiAction::Escape),
            Key::Tab => Some(UiAction::Tab),
            _ => None,
        }
    }
}

/// The focus of the backup page after a key, for the fields and buttons of
/// that page: Left leaves for the list (or goes to the button on the left),
/// Down/Tab and Right/Tab walk forward, Up walks back, Escape drops the focus.
pub open spec fn page_step(focus: Focus, action: UiAction) -> Focus {
    match focus {
        Focus::BkpName => match action {
            UiAction::Left => Focus::ExplorerList,
            UiAction::Down | UiAction::Tab => Focus::BkpDesc,
            UiAction::Escape => Focus::Nothing,
            _ => Focus::BkpName,
        },
        Focus::BkpDesc => match action {
            UiAction::Left => Focus::ExplorerList,
            UiAction::Down | UiAction::Tab => Focus::BkpCreated,
            UiAction::Up => Focus::BkpName,
            UiAction::Escape => Focus::Nothing,
            _ => Focus::BkpDesc,
        },
        Focus::BkpCreated => match action {
            UiAction::Left => Focus::ExplorerList,
            UiAction::Down | UiAction::Tab => Focus::BkpUpdated,
            UiAction::Up => Focus::BkpDesc,
            UiAction::Escape => Focus::Nothing,
            _ => Focus::BkpCreated,
        },
        Focus::BkpUpdated => match action {
            UiAction::Left => Focus::ExplorerList,
            UiAction::Down | UiAction::Tab => Focus::BkpDuplicate,
            UiAction::Up => Focus::BkpCreated,
            UiAction::Escape => Focus::Nothing,
            _ => Focus::BkpUpdated,
        },
        Focus::BkpDuplicate => match action {
            UiAction::Left => Focus::ExplorerList,
            UiAction::Right | UiAction::Tab => Focus::BkpReplace,
            UiAction::Up => Focus::BkpUpdated,
            UiAction::Escape => Focus::Nothing,
            _ => Focus::BkpDuplicate,
        },
        Focus::BkpReplace => match action {
            UiAction::Left => Focus::BkpDuplicate,
            UiAction::Right | UiAction::Tab => Focus::BkpDelete,
            UiAction::Up => Focus::BkpUpdated,
            UiAction::Escape => Focus::Nothing,
            _ => Focus::BkpReplace,
        },
        Focus::BkpDelete => match action {
            UiAction::Left => Focus::BkpReplace,
            UiAction::Right | UiAction::Tab => Focus::BkpLoad,
            UiAction::Up => Focus::BkpUpdated,
            UiAction::Escape => Focus::Nothing,
            _ => Focus::BkpDelete,
        },
        Focus::BkpLoad => match action {
            UiAction::Left => Focus::BkpDelete,
            UiAction::Tab => Focus::BkpName,
            UiAction::Up => Focus::BkpUpdated,
            UiAction::Escape => Focus::Nothing,
            _ => Focus::BkpLoad,
        },
        _ => focus,
    }
}

/// The fields and buttons of the backup page.
pub open spec fn is_page_focus(focus: Focus) -> bool {
    match focus {
        Focus::BkpName | Focus::BkpDesc | Focus::BkpCreated | Focus::BkpUpdated | Focus::BkpDuplicate
        | Focus::BkpReplace | Focus::BkpDelete | Focus::BkpLoad => true,
        _ => false,
    }
}

/// Index of the last backup of a list of `len` (0 for an empty list).
pub open spec fn max_index(len: nat) -> nat {
    if len == 0 { 0 } else { (len - 1) as nat }
}

/// One step of the focus and the selection for a list of `len` backups.
///
/// With nothing focused, Left/Enter/Tab focus the explorer and Right the
/// backup page. On the explorer, Tab/Enter/Down go to "New", Right to the
/// page, Escape drops the focus. On "New", Down/Tab select the first backup.
/// In the list, Up/Down move the selection (Up on the first goes to "New",
/// Down stops at the last), Tab goes to "New", Enter to the page, Escape
/// back to the explorer. The page moves as [`page_step`] says.
pub open spec fn state_focus_step(focus: Focus, item: Option<usize>, len: nat, action: UiAction) -> (
    Focus,
    Option<usize>,
) {
    match focus {
        Focus::Nothing => match action {
            UiAction::Left | UiAction::Enter | UiAction::Tab => (Focus::Explorer, item),
            UiAction::Right => (Focus::BkpName, item),
            _ => (Focus::Nothing, item),
        },
        Focus::Explorer => match action {
            UiAction::Tab | UiAction::Enter | UiAction::Down => (Focus::ExplorerNew, item),
            UiAction::Right => (Focus::BkpName, item),
            UiAction::Escape => (Focus::Nothing, item),
            _ => (Focus::Explorer, item),
        },
        Focus::ExplorerNew => match action {
            UiAction::Down | UiAction::Tab => (Focus::ExplorerList, Some(0usize)),
            UiAction::Escape => (Focus::Nothing, item),
            _ => (Focus::ExplorerNew, item),
        },
        Focus::ExplorerList => match action {
            UiAction::Up => {
                let i = item->0;
                if i == 0 {
                    (Focus::ExplorerNew, None)
                } else {
                    (Focus::ExplorerList, Some((i - 1) as usize))
                }
            },
            UiAction::Down => {
                let i = item->0;
                let next = if i < usize::MAX { i + 1 } else { i as int };
                (Focus::ExplorerList, Some((if next <= max_index(len) { next } else { max_index(len) as int }) as usize))
            },
            UiAction::Tab => (Focus::ExplorerNew, item),
            UiAction::Enter => (Focus::BkpName, item),
            UiAction::Escape => (Focus::Explorer, item),
            _ => (Focus::ExplorerList, item),
        },
        _ => (page_step(focus, action), item),
    }
}

/// The selected index.
pub open spec fn item_idx(item: Option<ExplorerListItem>) -> Option<usize> {
    match item {
        Some(i) => Some(i.0),
        None => None,
    }
}

/// A key that cannot be handled yet: Up/Down in the list with nothing
/// selected, and Enter on "New" (its popup does not exist yet).
pub open spec fn unhandled_action(focus: Focus, item: Option<usize>, action: UiAction) -> bool {
    ||| focus == Focus::ExplorerList && (action == UiAction::Up || action == UiAction::Down) && item is None
    ||| focus == Focus::ExplorerNew && action == UiAction::Enter
}

/// Whether a field is being typed into after a key: Enter on the name or
/// description field of the backup page starts editing it; any other key
/// leaves the flag as it was.
pub open spec fn editing_after(focus: Focus, editing: bool, action: UiAction) -> bool {
    if action == UiAction::Enter && (focus == Focus::BkpName || focus == Focus::BkpDesc) {
        true
    } else {
        editing
    }
}

impl State {
    pub fn list_item_idx(&self) -> (r: Option<usize>)
        ensures
            r == item_idx(self.list_item),
    {
        match self.list_item {
            Some(item) => Some(item.idx()),
            None => None,
        }
    }

    fn list_max_idx(&self) -> (m: usize)
        ensures
            m == max_index(self.conf.bkps@.len()),
    {
        self.conf.bkps.len().saturating_sub(1)
    }

    /// Moves the focus and the selection (see [`state_focus_step`]); Enter on
    /// the name or description field starts editing it (see [`editing_after`]).
    pub fn exec_ui_action(&mut self, action: UiAction)
        requires
            !unhandled_action(old(self).focus, item_idx(old(self).list_item), action),
        ensures
            (final(self).focus, item_idx(final(self).list_item)) == state_focus_step(
                old(self).focus,
                item_idx(old(self).list_item),
                old(self).conf.bkps@.len(),
                action,
            ),
            final(self).conf == old(self).conf,
            final(self).bkp_ctx == old(self).bkp_ctx,
            final(self).editing == editing_after(old(self).focus, old(self).editing, action),
    {
        if action == UiAction::Enter && (self.focus == Focus::BkpName || self.focus == Focus::BkpDesc) {
            self.editing = true;
        }
        self.focus = match self.focus {
            Focus::Nothing => match action {
                UiAction::Left | UiAction::Enter | UiAction::Tab => Focus::Explorer,
                UiAction::Right => Focus::BkpName,
                _ => Focus::Nothing,
            },
            Focus::Explorer => match action {
                UiAction::Tab | UiAction::Enter | UiAction::Down => Focus::ExplorerNew,
                UiAction::Right => Focus::BkpName,
                UiAction::Escape => Focus::Nothing,
                _ => Focus::Explorer,
            },
            Focus::ExplorerNew => match action {
                UiAction::Down | UiAction::Tab => {
                    self.list_item = Some(ExplorerListItem::from(0));
                    Focus::ExplorerList
                },
                UiAction::Escape => Focus::Nothing,
                _ => Focus::ExplorerNew,
            },
            Focus::ExplorerList => match action {
                UiAction::Up => {
                    let item = self.list_item.unwrap();
                    if item.idx() == 0 {
                        self.list_item = None;
                        Focus::ExplorerNew
                    } else {
                        self.list_item = Some(item.prev());
                        Focus::ExplorerList
                    }
                },
                UiAction::Down => {
                    let next_item = self.list_item.unwrap().next();
                    let max_idx = self.list_max_idx();
                    self.list_item = Some(
                        if next_item.idx() <= max_idx {
                            next_item
                        } else {
                            ExplorerListItem::from(max_idx)
                        },
                    );
                    Focus::ExplorerList
                },
                UiAction::Tab => Focus::ExplorerNew,
                UiAction::Enter => Focus::BkpName,
                UiAction::Escape => Focus::Explorer,
                _ => Focus::ExplorerList,
            },
            Focus::BkpName => match action {
                UiAction::Left => Focus::ExplorerList,
                UiAction::Down | UiAction::Tab => Focus::BkpDesc,
                UiAction::Escape => Focus::Nothing,
                _ => Focus::BkpName,
            },
            Focus::BkpDesc => match action {
                UiAction::Left => Focus::ExplorerList,
                UiAction::Down | UiAction::Tab => Focus::BkpCreated,
                UiAction::Up => Focus::BkpName,
                UiAction::Escape => Focus::Nothing,
                _ => Focus::BkpDesc,
            },
            Focus::BkpCreated => match action {
                UiAction::Left => Focus::ExplorerList,
                UiAction::Down | UiAction::Tab => Focus::BkpUpdated,
                UiAction::Up => Focus::BkpDesc,
                UiAction::Escape => Focus::Nothing,
                _ => Focus::BkpCreated,
            },
            Focus::BkpUpdated => match action {
                UiAction::Left => Focus::ExplorerList,
                UiAction::Down | UiAction::Tab => Focus::BkpDuplicate,
                UiAction::Up => Focus::BkpCreated,
                UiAction::Escape => Focus::Nothing,
                _ => Focus::BkpUpdated,
            },
            Focus::BkpDuplicate => match action {
                UiAction::Left => Focus::ExplorerList,
                UiAction::Right | UiAction::Tab => Focus::BkpReplace,
                UiAction::Up => Focus::BkpUpdated,
                UiAction::Escape => Focus::Nothing,
                _ => Focus::BkpDuplicate,
            },
            Focus::BkpReplace => match action {
                UiAction::Left => Focus::BkpDuplicate,
                UiAction::Right | UiAction::Tab => Focus::BkpDelete,
                UiAction::Up => Focus::BkpUpdated,
                UiAction::Escape => Focus::Nothing,
                _ => Focus::BkpReplace,
            },
            Focus::BkpDelete => match action {
                UiAction::Left => Focus::BkpReplace,
                UiAction::Right | UiAction::Tab => Focus::BkpLoad,
                UiAction::Up => Focus::BkpUpdated,
                UiAction::Escape => Focus::Nothing,
                _ => Focus::BkpDelete,
            },
            Focus::BkpLoad => match action {
                UiAction::Left => Focus::BkpDelete,
                UiAction::Tab => Focus::BkpName,
                UiAction::Up => Focus::BkpUpdated,
                UiAction::Escape => Focus::Nothing,
                _ => Focus::BkpLoad,
            },
        };
    }
}

} // verus!
