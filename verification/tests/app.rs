use deltarune_drive::tui::app::App;
use deltarune_drive::tui::backups::{Bkp, RegisteredBkp};
use deltarune_drive::tui::conf::Conf;
use deltarune_drive::tui::input::{UiEvent, UiPress};
use deltarune_drive::tui::manage_focus::{ExplorerListItem, Focus, MenuFocus};
use deltarune_drive::tui::my_widgets::popup::BinaryChoice;
use deltarune_drive::tui::popup_models::Popup;
use deltarune_drive::tui::startup::create_app;

fn conf_with(names: &[&str]) -> Conf {
    let mut conf = Conf::with_data_dir("/home/u/.local/share");
    for n in names {
        conf.bkps.push(Bkp::Registered(RegisteredBkp::with_name(n.to_string())));
    }
    conf
}

fn press(app: &mut App, p: UiPress) {
    app.handle_ui(UiEvent::Press(p));
}

fn names(app: &App) -> Vec<String> {
    app.bkp_names().into_iter().map(String::from).collect()
}

#[test]
fn create_app_focuses_new_when_empty() {
    let app = create_app(conf_with(&[]));
    assert!(app.is_focus(Focus::ExplorerNew));
    assert_eq!(app.list_item_idx(), None);
    assert!(app.bkps_empty());
}

#[test]
fn create_app_selects_first_backup() {
    let app = create_app(conf_with(&["a", "b"]));
    assert!(app.is_focus(Focus::ExplorerList));
    assert_eq!(app.list_item_idx(), Some(0));
    assert!(app.is_explorer_focused());
    assert!(!app.is_menu_focused());
    assert_eq!(app.selected_bkp().name(), "a");
    assert!(app.get_bkp(2).is_none());
    assert_eq!(app.get_bkp(1).unwrap().name(), "b");
}

#[test]
fn list_navigation_passes_through_new_button() {
    let mut app = create_app(conf_with(&["a", "b", "c"]));
    press(&mut app, UiPress::Down);
    assert_eq!(app.list_item_idx(), Some(1));
    press(&mut app, UiPress::Down);
    assert_eq!(app.list_item_idx(), Some(2));
    press(&mut app, UiPress::Down);
    assert!(app.is_focus(Focus::ExplorerNew));
    assert_eq!(app.list_item_idx(), None);
    press(&mut app, UiPress::Up);
    assert!(app.is_focus(Focus::ExplorerList));
    assert_eq!(app.list_item_idx(), Some(2));
    press(&mut app, UiPress::Tab);
    assert!(app.is_focus(Focus::ExplorerNew));
    press(&mut app, UiPress::Down);
    assert_eq!(app.list_item_idx(), Some(0));
    press(&mut app, UiPress::Up);
    assert!(app.is_focus(Focus::ExplorerNew));
    assert_eq!(app.list_item_idx(), None);
}

#[test]
fn new_button_without_backups_stays_put() {
    let mut app = create_app(conf_with(&[]));
    press(&mut app, UiPress::Up);
    press(&mut app, UiPress::Down);
    press(&mut app, UiPress::Tab);
    assert!(app.is_focus(Focus::ExplorerNew));
    assert_eq!(app.list_item_idx(), None);
}

#[test]
fn menu_walks_entries_and_escape_closes_it() {
    let mut app = create_app(conf_with(&["a"]));
    press(&mut app, UiPress::Enter);
    assert_eq!(app.focus, Focus::Menu(MenuFocus::Rename));
    assert_eq!(app.focus.as_menu_index(), Some(0));
    press(&mut app, UiPress::Up);
    assert_eq!(app.focus, Focus::Menu(MenuFocus::Rename));
    press(&mut app, UiPress::Down);
    press(&mut app, UiPress::Down);
    assert_eq!(app.focus, Focus::Menu(MenuFocus::Clone));
    press(&mut app, UiPress::Up);
    assert_eq!(app.focus, Focus::Menu(MenuFocus::Load));
    assert_eq!(app.focus.as_menu_index(), Some(1));
    press(&mut app, UiPress::Escape);
    assert_eq!(app.focus, Focus::ExplorerList);
    assert_eq!(app.focus.as_menu_index(), None);
    assert_eq!(app.list_item_idx(), Some(0));
}

#[test]
fn new_backup_popup_adds_and_selects_backup() {
    let mut app = create_app(conf_with(&["a"]));
    press(&mut app, UiPress::Up);
    assert!(app.is_focus(Focus::ExplorerNew));
    press(&mut app, UiPress::Enter);
    assert!(matches!(app.popup, Some(Popup::NewBackup(_))));
    for c in "save 2".chars() {
        press(&mut app, UiPress::Char(c));
    }
    // focus keys go to the popup while it is open
    press(&mut app, UiPress::Down);
    assert!(app.is_focus(Focus::ExplorerNew));
    press(&mut app, UiPress::Enter);
    press(&mut app, UiPress::Enter);
    assert!(app.popup.is_none());
    assert_eq!(names(&app), vec!["a".to_string(), "save 2".to_string()]);
    assert_eq!(app.list_item_idx(), Some(1));
    assert!(app.is_focus(Focus::ExplorerList));
    match app.selected_bkp() {
        Bkp::Registered(b) => {
            assert_eq!(b.desc, "");
            assert!(b.update_date.is_none());
        }
        Bkp::Unregistered(_) => panic!("new backups are registered"),
    }
}

#[test]
fn new_backup_popup_escape_discards() {
    let mut app = create_app(conf_with(&[]));
    press(&mut app, UiPress::Enter);
    press(&mut app, UiPress::Char('x'));
    press(&mut app, UiPress::Escape);
    assert!(app.popup.is_none());
    assert!(app.bkps_empty());
    assert!(app.is_focus(Focus::ExplorerNew));
}

fn open_delete(app: &mut App) {
    press(app, UiPress::Enter);
    press(app, UiPress::Down);
    press(app, UiPress::Down);
    press(app, UiPress::Down);
    assert_eq!(app.focus, Focus::Menu(MenuFocus::Delete));
    press(app, UiPress::Enter);
    assert!(matches!(app.popup, Some(Popup::DeleteBackup(BinaryChoice::Yes))));
}

#[test]
fn delete_confirmed_removes_selected_backup() {
    let mut app = create_app(conf_with(&["a", "b", "c"]));
    press(&mut app, UiPress::Down);
    press(&mut app, UiPress::Down);
    open_delete(&mut app);
    press(&mut app, UiPress::Enter);
    assert!(app.popup.is_none());
    assert_eq!(names(&app), vec!["a".to_string(), "b".to_string()]);
    assert_eq!(app.list_item_idx(), Some(1));
    assert_eq!(app.focus, Focus::Menu(MenuFocus::Delete));
}

#[test]
fn delete_keeps_position_in_middle_of_list() {
    let mut app = create_app(conf_with(&["a", "b", "c"]));
    press(&mut app, UiPress::Down);
    open_delete(&mut app);
    press(&mut app, UiPress::Enter);
    assert_eq!(names(&app), vec!["a".to_string(), "c".to_string()]);
    assert_eq!(app.list_item_idx(), Some(1));
}

#[test]
fn delete_of_last_backup_clears_selection() {
    let mut app = create_app(conf_with(&["only"]));
    open_delete(&mut app);
    press(&mut app, UiPress::Enter);
    assert!(app.bkps_empty());
    assert_eq!(app.list_item_idx(), None);
}

#[test]
fn delete_declined_keeps_backups() {
    let mut app = create_app(conf_with(&["a", "b"]));
    open_delete(&mut app);
    press(&mut app, UiPress::Right);
    assert!(matches!(app.popup, Some(Popup::DeleteBackup(BinaryChoice::No))));
    app.handle_ui(UiEvent::Paste("ignored"));
    press(&mut app, UiPress::Enter);
    assert!(app.popup.is_none());
    assert_eq!(names(&app), vec!["a".to_string(), "b".to_string()]);
    assert_eq!(app.list_item_idx(), Some(0));
}

#[test]
fn paste_without_popup_changes_nothing() {
    let mut app = create_app(conf_with(&["a"]));
    app.handle_ui(UiEvent::Paste("x"));
    assert!(app.is_focus(Focus::ExplorerList));
    assert_eq!(app.list_item_idx(), Some(0));
}

#[test]
fn add_then_delete_gives_back_the_list() {
    let mut app = App::from_conf(conf_with(&["a", "b"]));
    let idx = app.create_registered_bkp("c".to_string());
    assert_eq!(idx, 2);
    app.delete_bkp(idx);
    assert_eq!(names(&app), vec!["a".to_string(), "b".to_string()]);
}

#[test]
fn app_new_starts_empty() {
    let app = App::new("/data");
    assert!(app.bkps_empty());
    assert_eq!(app.conf.app_path, "/data/deltarune_drive_settings");
    assert_eq!(app.conf.deltarune_path, deltarune_drive::tui::conf::DeltarunePath::Steam);
    assert!(app.is_focus(Focus::ExplorerList));
    assert!(!app.is_editing(Focus::ExplorerList));
    assert_eq!(app.list_item_idx(), None);
}

#[test]
fn explorer_list_item_steps_saturate() {
    assert_eq!(ExplorerListItem(3).next(), ExplorerListItem(4));
    assert_eq!(ExplorerListItem(usize::MAX).next(), ExplorerListItem(usize::MAX));
    assert_eq!(ExplorerListItem(3).prev(), ExplorerListItem(2));
    assert_eq!(ExplorerListItem(0).prev(), ExplorerListItem(0));
    assert_eq!(ExplorerListItem(7).next().prev(), ExplorerListItem(7));
    assert_eq!(ExplorerListItem::from(5).idx(), 5);
}

#[test]
fn confirming_delete_without_selection_is_detected() {
    let mut app = create_app(conf_with(&["a"]));
    open_delete(&mut app);
    assert!(!app.misses_delete_target(&UiEvent::Press(UiPress::Enter)));
    assert!(!app.misses_delete_target(&UiEvent::Press(UiPress::Left)));
    app.list_item = None;
    assert!(app.misses_delete_target(&UiEvent::Press(UiPress::Enter)));
    app.list_item = Some(ExplorerListItem(5));
    assert!(app.misses_delete_target(&UiEvent::Press(UiPress::Enter)));
    app.popup = None;
    assert!(!app.misses_delete_target(&UiEvent::Press(UiPress::Enter)));
}

#[test]
fn key_presses_keep_selection_with_list_focus() {
    let mut app = create_app(conf_with(&["a", "b"]));
    for p in [UiPress::Up, UiPress::Up, UiPress::Down, UiPress::Tab, UiPress::Down, UiPress::Enter, UiPress::Escape] {
        app.handle_ui_focus(p);
        assert_eq!(app.focus == Focus::ExplorerNew, app.list_item_idx().is_none());
        if let Some(i) = app.list_item_idx() {
            assert!(i < 2);
        }
    }
}
