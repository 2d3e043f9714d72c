use vstd::prelude::*;

use crate::tui::model::state::manage_focus::is_page_focus;
use crate::tui::model::state::{Focus, State};

verus! {

impl State {
    pub fn focus_on(&self, focus: Focus) -> (b: bool)
        ensures
            b == (self.focus == focus),
    {
        self.focus == focus
    }

    /// Whether the explorer block, its button or its list has the focus.
    pub fn focus_on_explorer(&self) -> (b: bool)
        ensures
            b == (self.focus == Focus::Explorer || self.focus == Focus::ExplorerNew
                || self.focus == Focus::ExplorerList),
    {
        match self.focus {
            Focus::Explorer | Focus::ExplorerNew | Focus::ExplorerList => true,
            _ => false,
        }
    }

    /// Whether a field or button of the backup page has the focus.
    pub fn focus_on_bkp(&self) -> (b: bool)
        ensures
            b == is_page_focus(self.focus),
    {
        match self.focus {
            Focus::BkpName | Focus::BkpDesc | Focus::BkpCreated | Focus::BkpUpdated
            | Focus::BkpDuplicate | Focus::BkpReplace | Focus::BkpDelete | Focus::BkpLoad => true,
            _ => false,
        }
    }

    /// The names of the backups, in list order.
    pub fn bkp_names(&self) -> (names: Vec<&str>)
        ensures
            names@.len() == self.conf.bkps@.len(),
            forall|i: int| 0 <= i < names@.len() ==> (#[trigger] names@[i])@ == self.conf.bkps@[i].spec_name(),
    {
        crate::tui::render::names_of(&self.conf.bkps)
    }
}

} // verus!
