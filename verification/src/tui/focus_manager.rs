use vstd::prelude::*;

use crate::tui::input::Key;

verus! {

/// Position of the selected backup in the explorer list.
#[derive(Debug, Clone, Copy, PartialEq, Eq, PartialOrd, Ord, Structural)]
pub struct ExplorerListItem(pub usize);

impl ExplorerListItem {
    pub fn idx(self) -> (i: usize)
        ensures
            i == self.0,
    {
        self.0
    }
}

/// What has the focus inside the explorer block.
#[derive(Debug, PartialEq, Eq, Structural)]
pub enum ExplorerFocus {
    /// Nothing inside explorer block is selected.
    Nothing,
    List(ExplorerListItem),
    NewButton,
}

impl Default for ExplorerFocus {
    fn default() -> (f: Self)
        ensures
            f == ExplorerFocus::Nothing,
    {
        ExplorerFocus::Nothing
    }
}

/// What has the focus on the backup page.
#[derive(Debug, PartialEq, Eq, Structural)]
pub enum BkpPageFocus {
    /// First item in the bkp page block
    NameInput,
    DescInput,
    CreatedField,
    UpdatedField,
    DeleteButton,
    DuplicateButton,
    ReplaceButton,
}

impl Default for BkpPageFocus {
    fn default() -> (f: Self)
        ensures
            f == BkpPageFocus::NameInput,
    {
        BkpPageFocus::NameInput
    }
}

/// What has the focus: nothing, something in the explorer, or something on
/// the backup page.
#[derive(PartialEq, Eq, Structural)]
pub enum Focus {
    Nothing,
    Explorer(ExplorerFocus),
    BkpPage(BkpPageFocus),
}

impl Default for Focus {
    fn default() -> (f: Self)
        ensures
            f == Focus::Nothing,
    {
        Focus::Nothing
    }
}

/// Keeps track of the focus.
pub struct FocusManager {
    focus: Focus,
}

impl FocusManager {
    /// The focus being tracked.
    pub closed spec fn spec_focus(&self) -> Focus {
        self.focus
    }

    /// A manager tracking `focus`.
    pub fn new(focus: Focus) -> (m: Self)
        ensures
            m.spec_focus() == focus,
    {
        FocusManager { focus }
    }

    pub fn focus(&self) -> (f: &Focus)
        ensures
            *f == self.spec_focus(),
    {
        &self.focus
    }
}

/// A navigation key.
#[derive(Debug, Clone, Copy, PartialEq, Eq, PartialOrd, Ord, Structural)]
pub enum UiAction {
    Right,
    Left,
    Up,
    Down,
    Enter,
    Escape,
    Tab,
}

/// The navigation key a key code stands for.
pub open spec fn action_of_key(code: Key) -> Option<UiAction> {
    match code {
        Key::Right => Some(UiAction::Right),
        Key::Left => Some(UiAction::Left),
        Key::Up => Some(UiAction::Up),
        Key::Down => Some(UiAction::Down),
        Key::Enter => Some(UiAction::Enter),
        Key::Esc => Some(UiAction::Escape),
        Key::Tab => Some(UiAction::Tab),
        _ => None,
    }
}

impl UiAction {
    pub fn parse(code: Key) -> (a: Option<Self>)
        ensures
            a == action_of_key(code),
    {
        match code {
            Key::Right => Some(UiAction::Right),
            Key::Left => Some(UiAction::Left),
            Key::Up => Some(UiAction::Up),
            Key::Down => Some(UiAction::Down),
            Key::Enter => Some(UiAction::Enter),
            Key::Esc => Some(UiAction::Escape),
            Key::Tab => Some(UiAction::Tab),
            _ => None,
        }
    }
}

} // verus!
