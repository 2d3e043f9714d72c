use vstd::prelude::*;

use crate::tui::backups::{Bkp, RegisteredBkp};
use crate::text::joined_path;
use crate::tui::conf::{Conf, DeltarunePath, DATA_DIR_SUF};
use crate::tui::manage_focus::{ExplorerListItem, Focus};
use crate::tui::my_widgets::input_line::InputState;
use crate::tui::my_widgets::popup::BinaryChoice;

verus! {

/// The model of a popup that asks for a line of text and then for a yes/no
/// confirmation.
pub struct InputPopupModel {
    pub submit: Option<BinaryChoice>,
    pub input: InputState,
}

impl Default for InputPopupModel {
    fn default() -> (m: Self)
        ensures
            m.submit is None,
            m.input@.text.len() == 0,
            m.input@.cursor == 0,
            m.input@.max_chars == usize::MAX,
    {
        InputPopupModel { submit: None, input: InputState::default() }
    }
}

/// Popups in their first form: asking for a new backup's name, or for
/// confirmation to delete one.
pub enum Popup {
    NewBackup(InputPopupModel),
    DeleteBkp(BinaryChoice),
}

/// The application state.
pub struct App {
    /// Stores all the backups and where the application keeps its files.
    pub conf: Conf,
    pub focus: Focus,
    pub editing: bool,
    pub list_item: Option<ExplorerListItem>,
    pub popup: Option<crate::tui::popup_models::Popup>,
}

impl App {
    /// The selection, when there is one, points at a backup.
    pub open spec fn wf(&self) -> bool {
        self.list_item matches Some(i) ==> i.0 < self.conf.bkps@.len()
    }

    /// A fresh application for the given local data directory: default
    /// settings, the list focused, nothing selected, no popup.
    pub fn new(data_local_dir: &str) -> (app: Self)
        ensures
            app.wf(),
            app.conf.deltarune_path == DeltarunePath::Steam,
            joined_path(data_local_dir@, DATA_DIR_SUF@, app.conf.app_path@),
            app.conf.bkps@.len() == 0,
            app.focus == Focus::ExplorerList,
            !app.editing,
            app.list_item is None,
            app.popup is None,
    {
        App {
            conf: Conf::with_data_dir(data_local_dir),
            focus: Focus::default(),
            editing: false,
            list_item: None,
            popup: None,
        }
    }

    /// An application over the given settings: the list focused, nothing
    /// selected, no popup.
    pub fn from_conf(conf: Conf) -> (app: Self)
        ensures
            app.wf(),
            app.conf == conf,
            app.focus == Focus::ExplorerList,
            !app.editing,
            app.list_item is None,
            app.popup is None,
    {
        App { conf, focus: Focus::default(), editing: false, list_item: None, popup: None }
    }

    /// Returns `true` when the backup list is empty.
    pub fn bkps_empty(&self) -> (b: bool)
        ensures
            b == (self.conf.bkps@.len() == 0),
    {
        self.conf.bkps.len() == 0
    }

    /// Adds a registered backup called `name` at the end of the list and
    /// returns its index.
    pub fn create_registered_bkp(&mut self, name: String) -> (idx: usize)
        ensures
            idx == old(self).conf.bkps@.len(),
            crate::tui::manage_focus::bkp_added(old(self).conf.bkps@, final(self).conf.bkps@, name@),
            final(self).conf.deltarune_path == old(self).conf.deltarune_path,
            final(self).conf.app_path == old(self).conf.app_path,
            final(self).focus == old(self).focus,
            final(self).editing == old(self).editing,
            final(self).list_item == old(self).list_item,
            final(self).popup == old(self).popup,
    {
        let next_idx = self.conf.bkps.len();
        let registered_bkp = Bkp::Registered(RegisteredBkp::with_name(name));
        self.conf.bkps.push(registered_bkp);
        assert(self.conf.bkps@.take(next_idx as int) =~= old(self).conf.bkps@);
        next_idx
    }

    /// Removes the backup at `idx`.
    pub fn delete_bkp(&mut self, idx: usize)
        requires
            idx < old(self).conf.bkps@.len(),
        ensures
            final(self).conf.bkps@ == old(self).conf.bkps@.remove(idx as int),
            final(self).conf.deltarune_path == old(self).conf.deltarune_path,
            final(self).conf.app_path == old(self).conf.app_path,
            final(self).focus == old(self).focus,
            final(self).editing == old(self).editing,
            final(self).list_item == old(self).list_item,
            final(self).popup == old(self).popup,
    {
        self.conf.bkps.remove(idx);
    }
}

} // verus!
