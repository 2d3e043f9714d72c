use deltarune_drive::desktop_app::backups::{Bkp as DesktopBkp, RegisteredBkp as DesktopRegisteredBkp};
use deltarune_drive::desktop_app::settings::{DeltarunePath as DesktopDeltarunePath, Settings};
use deltarune_drive::steam_deltarune::{deltarune_candidates, first_existing, same_text, DeltarunePathError, Sufs};
use deltarune_drive::text::{join_with_newlines, split_at_newlines};
use deltarune_drive::tui::backups::{enlistable_entries, is_bkp_file_name, Bkp, RegisteredBkp, UnregisteredBkp};
use deltarune_drive::tui::conf::{default_app_path, Conf, DeltarunePath, CONF_FILE, DATA_DIR_SUF};
use deltarune_drive::tui::focus_manager::{self, BkpPageFocus, ExplorerFocus, FocusManager};
use deltarune_drive::tui::input::{Key, KeyInput, TermEvent, UiEvent, UiPress};

fn key(code: Key) -> TermEvent {
    TermEvent::Key(KeyInput { code, is_press: true, no_modifiers: true, ctrl: false })
}

#[test]
fn parse_event_maps_presses() {
    assert_eq!(UiEvent::parse_event(&key(Key::Enter)), Some(UiEvent::Press(UiPress::Enter)));
    assert_eq!(UiEvent::parse_event(&key(Key::Esc)), Some(UiEvent::Press(UiPress::Escape)));
    assert_eq!(UiEvent::parse_event(&key(Key::Char('q'))), Some(UiEvent::Press(UiPress::Char('q'))));
    assert_eq!(UiEvent::parse_event(&key(Key::Backspace)), None);
    assert_eq!(UiEvent::parse_event(&key(Key::Other)), None);
    assert_eq!(UiEvent::parse_event(&TermEvent::Other), None);
}

#[test]
fn parse_event_ignores_releases_and_keeps_pastes() {
    let release = TermEvent::Key(KeyInput { code: Key::Enter, is_press: false, no_modifiers: true, ctrl: false });
    assert_eq!(UiEvent::parse_event(&release), None);
    let paste = TermEvent::Paste("hello".to_string());
    assert_eq!(UiEvent::parse_event(&paste), Some(UiEvent::Paste("hello")));
    let ctrl_x = TermEvent::Key(KeyInput { code: Key::Char('x'), is_press: true, no_modifiers: false, ctrl: true });
    assert_eq!(UiEvent::parse_event(&ctrl_x), Some(UiEvent::Press(UiPress::Char('x'))));
}

#[test]
fn backup_file_names() {
    assert!(is_bkp_file_name("save.zip"));
    assert!(is_bkp_file_name("a.b.zip"));
    assert!(is_bkp_file_name("..zip"));
    assert!(!is_bkp_file_name(".zip"));
    assert!(!is_bkp_file_name("save.zip.bak"));
    assert!(!is_bkp_file_name("zip"));
    assert!(!is_bkp_file_name("save.ZIP"));
}

#[test]
fn path_joining_follows_pathbuf() {
    let sep = std::path::MAIN_SEPARATOR;
    assert_eq!(default_app_path("/home/u"), format!("/home/u{}deltarune_drive_settings", sep));
    let expected = std::path::Path::new("/home/u/").join(DATA_DIR_SUF).to_string_lossy().into_owned();
    assert_eq!(default_app_path("/home/u/"), expected);
    assert_eq!(default_app_path(""), "deltarune_drive_settings");
}

#[test]
fn conf_paths() {
    assert_eq!(DATA_DIR_SUF, "deltarune_drive_settings");
    assert_eq!(CONF_FILE, "settings.json");
    assert_eq!(default_app_path("/home/u/.local/share"), "/home/u/.local/share/deltarune_drive_settings");
    let conf = Conf::with_data_dir("/data/");
    assert_eq!(conf.app_path, "/data/deltarune_drive_settings");
    assert_eq!(conf.settings_file(), "/data/deltarune_drive_settings/settings.json");
    assert_eq!(conf.deltarune_path, DeltarunePath::Steam);
    assert!(conf.bkps.is_empty());
}

#[test]
fn registered_backups() {
    let b = RegisteredBkp::with_name("x".to_string());
    assert_eq!(b.name, "x");
    assert_eq!(b.desc, "");
    assert!(b.update_date.is_none());
    let r = RegisteredBkp::from_unregistered(UnregisteredBkp { name: "found".to_string() });
    assert_eq!(r.name, "found");
    assert_eq!(Bkp::Unregistered(UnregisteredBkp { name: "u".to_string() }).name(), "u");
    assert_eq!(Bkp::Registered(r).name(), "found");
    let d = RegisteredBkp::default();
    assert_eq!(d.name, "");
    assert!(d.creation_date.secs > 0);
}

#[test]
fn split_and_join_lines() {
    assert_eq!(split_at_newlines("a\nb\n"), vec!["a".to_string(), "b".to_string(), String::new()]);
    assert_eq!(split_at_newlines(""), vec![String::new()]);
    assert_eq!(join_with_newlines(&vec!["a".to_string(), "".to_string(), "c".to_string()]), "a\n\nc");
    assert_eq!(join_with_newlines(&vec![]), "");
}

fn sufs() -> Sufs<'static> {
    Sufs { windows: "win", macos: "mac", linux_native: "native", linux_compat: "compat", linux_flatpak: "flat" }
}

#[test]
fn deltarune_candidates_per_system() {
    let s = sufs();
    assert_eq!(deltarune_candidates(Some("/h"), "linux", &s), Ok(vec!["/h/native".to_string(), "/h/compat".to_string(), "/h/flat".to_string()]));
    assert_eq!(deltarune_candidates(Some("/h"), "windows", &s), Ok(vec!["/h/win".to_string()]));
    assert_eq!(deltarune_candidates(Some("/h"), "macos", &s), Ok(vec!["/h/mac".to_string()]));
    assert_eq!(deltarune_candidates(Some("/h"), "freebsd", &s), Err(DeltarunePathError::OsNotSupported));
    assert_eq!(deltarune_candidates(None, "freebsd", &s), Err(DeltarunePathError::HomeDirNotPresent));
}

#[test]
fn first_existing_candidate_wins() {
    let c = vec!["a".to_string(), "b".to_string(), "c".to_string()];
    assert_eq!(first_existing(&c, &vec![false, true, true]), Ok("b".to_string()));
    assert_eq!(first_existing(&c, &vec![false, false, false]), Err(DeltarunePathError::DeltaruneNotPresent));
    assert_eq!(first_existing(&vec![], &vec![]), Err(DeltarunePathError::DeltaruneNotPresent));
    assert!(same_text("ab", "ab"));
    assert!(!same_text("ab", "abc"));
    assert!(!same_text("ab", "ac"));
}

#[test]
fn desktop_defaults() {
    let s = Settings::default();
    assert_eq!(s.bkps_path, "./backups");
    assert_eq!(s.deltarune_path, DesktopDeltarunePath::Steam);
    assert!(s.bkps.is_empty());
    let b = DesktopRegisteredBkp::new();
    assert_eq!(b.name, "");
    assert!(b.update_date.is_none());
    let u = DesktopBkp::Unregistered { path: "x.zip".to_string() };
    assert!(matches!(u, DesktopBkp::Unregistered { .. }));
}

#[test]
fn focus_manager_reports_focus() {
    let m = FocusManager::new(focus_manager::Focus::BkpPage(BkpPageFocus::DescInput));
    assert!(m.focus() == &focus_manager::Focus::BkpPage(BkpPageFocus::DescInput));
    assert!(focus_manager::Focus::default() == focus_manager::Focus::Nothing);
    assert_eq!(ExplorerFocus::default(), ExplorerFocus::Nothing);
    assert_eq!(BkpPageFocus::default(), BkpPageFocus::NameInput);
    assert_eq!(focus_manager::ExplorerListItem(4).idx(), 4);
    assert_eq!(focus_manager::UiAction::parse(Key::Left), Some(focus_manager::UiAction::Left));
    assert_eq!(focus_manager::UiAction::parse(Key::Backspace), None);
}

#[test]
fn new_backups_carry_a_clock_time() {
    let b = deltarune_drive::tui::backups::RegisteredBkp::with_name("x".to_string());
    assert!(b.creation_date.secs > 0);
    assert!(b.creation_date.nanos < 1_000_000_000);
}

#[test]
fn quit_and_paste_keys_are_recognised() {
    assert!(key(Key::Char('q')).is_quit());
    assert!(key(Key::Char('Q')).is_quit());
    assert!(!key(Key::Char('w')).is_quit());
    let release = TermEvent::Key(KeyInput { code: Key::Char('q'), is_press: false, no_modifiers: true, ctrl: false });
    assert!(!release.is_quit());
    let ctrl_v = TermEvent::Key(KeyInput { code: Key::Char('v'), is_press: true, no_modifiers: false, ctrl: true });
    assert!(ctrl_v.is_paste_shortcut_press());
    assert!(!key(Key::Char('v')).is_paste_shortcut_press());
    assert!(!TermEvent::Paste("v".to_string()).is_paste_shortcut_press());
}

#[test]
fn backup_entries_are_files_named_zip() {
    let is_file = vec![true, false, true, true, true];
    let names = vec![
        Some("a.zip".to_string()),
        Some("dir.zip".to_string()),
        Some("notes.txt".to_string()),
        None,
        Some("b.zip".to_string()),
    ];
    assert_eq!(enlistable_entries(&is_file, &names), vec![0, 4]);
}
