use deltarune_drive::tui::backups::{Bkp, RegisteredBkp};
use deltarune_drive::tui::conf::Conf;
use deltarune_drive::tui::input::{Key, KeyInput};
use deltarune_drive::tui::model::state::{ExplorerListItem, Focus, LinesString, State, UiAction};

fn state_with(n: usize) -> State {
    let mut conf = Conf::with_data_dir("/d");
    for i in 0..n {
        conf.bkps.push(Bkp::Registered(RegisteredBkp::with_name(format!("b{}", i))));
    }
    State::from_conf(conf)
}

#[test]
fn state_starts_unfocused() {
    let s = state_with(2);
    assert!(s.focus_on(Focus::Nothing));
    assert!(!s.focus_on_explorer());
    assert!(!s.focus_on_bkp());
    assert_eq!(s.list_item_idx(), None);
    assert!(!s.bkps_empty());
    assert!(state_with(0).bkps_empty());
    assert_eq!(s.bkp_names(), vec!["b0", "b1"]);
}

#[test]
fn explorer_walk_selects_and_clamps() {
    let mut s = state_with(2);
    s.exec_ui_action(UiAction::Left);
    assert!(s.focus_on(Focus::Explorer));
    assert!(s.focus_on_explorer());
    s.exec_ui_action(UiAction::Down);
    assert!(s.focus_on(Focus::ExplorerNew));
    s.exec_ui_action(UiAction::Tab);
    assert!(s.focus_on(Focus::ExplorerList));
    assert_eq!(s.list_item_idx(), Some(0));
    s.exec_ui_action(UiAction::Down);
    s.exec_ui_action(UiAction::Down);
    assert_eq!(s.list_item_idx(), Some(1));
    s.exec_ui_action(UiAction::Up);
    s.exec_ui_action(UiAction::Up);
    assert!(s.focus_on(Focus::ExplorerNew));
    assert_eq!(s.list_item_idx(), None);
    s.exec_ui_action(UiAction::Escape);
    assert!(s.focus_on(Focus::Nothing));
}

#[test]
fn page_walk_and_escape() {
    let mut s = state_with(1);
    s.exec_ui_action(UiAction::Right);
    assert!(s.focus_on(Focus::BkpName));
    assert!(s.focus_on_bkp());
    for _ in 0..4 {
        s.exec_ui_action(UiAction::Tab);
    }
    assert!(s.focus_on(Focus::BkpDuplicate));
    s.exec_ui_action(UiAction::Right);
    assert!(s.focus_on(Focus::BkpReplace));
    s.exec_ui_action(UiAction::Right);
    assert!(s.focus_on(Focus::BkpDelete));
    s.exec_ui_action(UiAction::Right);
    assert!(s.focus_on(Focus::BkpLoad));
    s.exec_ui_action(UiAction::Left);
    assert!(s.focus_on(Focus::BkpDelete));
    s.exec_ui_action(UiAction::Up);
    assert!(s.focus_on(Focus::BkpUpdated));
    s.exec_ui_action(UiAction::Up);
    s.exec_ui_action(UiAction::Down);
    assert!(s.focus_on(Focus::BkpUpdated));
    s.exec_ui_action(UiAction::Escape);
    assert!(s.focus_on(Focus::Nothing));
}

#[test]
fn page_left_returns_to_list() {
    let mut s = state_with(1);
    s.exec_ui_action(UiAction::Right);
    s.exec_ui_action(UiAction::Left);
    assert!(s.focus_on(Focus::ExplorerList));
    s.exec_ui_action(UiAction::Enter);
    assert!(s.focus_on(Focus::BkpName));
}

#[test]
fn ui_action_parse_maps_navigation_keys() {
    assert_eq!(UiAction::parse(Key::Esc), Some(UiAction::Escape));
    assert_eq!(UiAction::parse(Key::Tab), Some(UiAction::Tab));
    assert_eq!(UiAction::parse(Key::Char('a')), None);
    assert_eq!(UiAction::parse(Key::Backspace), None);
    let k = KeyInput { code: Key::Up, is_press: true, no_modifiers: true, ctrl: false };
    assert_eq!(UiAction::parse(k.code), Some(UiAction::Up));
}

#[test]
fn state_list_item_steps() {
    assert_eq!(ExplorerListItem(1).prev(), ExplorerListItem(0));
    assert_eq!(ExplorerListItem(1).next().idx(), 2);
}

#[test]
fn lines_string_round_trip() {
    for text in ["", "one", "a\nb", "a\n\nb\n", "\n"] {
        let l = LinesString::from_text(text);
        assert_eq!(l.to_string(), text);
    }
    let l = LinesString::from_text("a\n\nb\n");
    assert_eq!(l.lines(), vec!["a", "", "b", ""]);
    assert_eq!(LinesString::from_text("").lines(), vec![""]);
}

#[test]
fn lines_string_from_parts() {
    let l = LinesString::from_iter(&["x", "yz"]);
    assert_eq!(l.to_string(), "x\nyz");
    let v = LinesString::from_vec(vec!["p".to_string(), "q".to_string()]);
    assert_eq!(v.lines(), vec!["p", "q"]);
    assert_eq!(LinesString::from_text(&v.to_string()).lines(), vec!["p", "q"]);
    assert_eq!(LinesString::default().to_string(), "");
}

#[test]
fn enter_on_name_or_description_starts_editing() {
    let mut s = state_with(1);
    s.exec_ui_action(UiAction::Right);
    assert!(s.focus_on(Focus::BkpName));
    assert!(!s.editing);
    s.exec_ui_action(UiAction::Enter);
    assert!(s.editing);
    assert!(s.focus_on(Focus::BkpName));

    let mut d = state_with(1);
    d.exec_ui_action(UiAction::Right);
    d.exec_ui_action(UiAction::Down);
    assert!(d.focus_on(Focus::BkpDesc));
    d.exec_ui_action(UiAction::Enter);
    assert!(d.editing);

    let mut c = state_with(1);
    c.exec_ui_action(UiAction::Right);
    c.exec_ui_action(UiAction::Down);
    c.exec_ui_action(UiAction::Down);
    assert!(c.focus_on(Focus::BkpCreated));
    c.exec_ui_action(UiAction::Enter);
    assert!(!c.editing);
}
