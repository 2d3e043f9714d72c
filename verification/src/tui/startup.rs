use vstd::prelude::*;

use crate::tui::app::App;
use crate::tui::conf::Conf;
use crate::tui::manage_focus::{item_idx, selection_matches_focus, ExplorerListItem, Focus};

verus! {

/// The application as it starts over the given settings: the first backup
/// selected in the focused list, or the "New" button focused when there is
/// no backup.
pub fn create_app(conf: Conf) -> (app: App)
    ensures
        app.wf(),
        app.conf == conf,
        !app.editing,
        app.popup is None,
        selection_matches_focus(app.focus, item_idx(app.list_item), app.conf.bkps@.len()),
        if conf.bkps@.len() == 0 {
            app.list_item is None && app.focus == Focus::ExplorerNew
        } else {
            item_idx(app.list_item) == Some(0usize) && app.focus == Focus::ExplorerList
        },
{
    let mut app = App::from_conf(conf);
    if app.bkps_empty() {
        app.list_item = None;
        app.focus = Focus::ExplorerNew;
    } else {
        app.list_item = Some(ExplorerListItem::from(0));
        app.focus = Focus::ExplorerList;
    }
    app
}

} // verus!
