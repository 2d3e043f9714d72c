use deltarune_drive::tui::layout::{Position, Rect};
use deltarune_drive::tui::my_widgets::button::{button_label_area, button_simple_layout, is_button_drawn, ButtonState, EqPad};
use deltarune_drive::tui::my_widgets::input_field::{Cursor, Field, InputAction};
use deltarune_drive::tui::my_widgets::menu::{
    menu_drawn, menu_first_shown, menu_key_x, menu_rows, shorten_label, MenuRow, MenuState,
};
use deltarune_drive::tui::my_widgets::Corners;
use deltarune_drive::tui::input::{Key, KeyInput};
use deltarune_drive::tui::render::{box_fits_on_screen, fit_on_screen, menu_area, menu_fits};

#[test]
fn fit_on_screen_keeps_fitting_box() {
    let screen = Rect::new(0, 0, 80, 24);
    assert_eq!(fit_on_screen(10, 5, 20, 4, screen), (10, 5));
}

#[test]
fn fit_on_screen_flips_at_edges() {
    let screen = Rect::new(0, 0, 80, 24);
    assert_eq!(fit_on_screen(70, 22, 20, 4, screen), (50, 18));
    assert_eq!(fit_on_screen(5, 22, 20, 4, Rect::new(10, 0, 60, 24)), (10, 18));
}

#[test]
fn menu_area_follows_selected_row() {
    let screen = Rect::new(0, 0, 80, 24);
    let list = Rect::new(1, 1, 30, 20);
    assert_eq!(menu_area(list, 3, 0, screen), Rect::new(1, 5, 20, 4));
    assert_eq!(menu_area(list, 3, 5, screen), Rect::new(1, 2, 20, 4));
    assert_eq!(menu_area(list, 21, 0, screen), Rect::new(1, 19, 20, 4));
    assert!(menu_fits(list, 3, 0, screen));
    // a screen narrower than the menu, away from the left edge: no room to clamp into
    assert!(!menu_fits(list, 3, 0, Rect::new(5, 0, 10, 24)));
    // a row past the last line of the terminal
    assert!(!menu_fits(Rect::new(1, 65534, 30, 1), 0, 0, screen));
    assert!(box_fits_on_screen(10, 5, 20, 4, screen));
    assert!(!box_fits_on_screen(65530, 5, 20, 4, screen));
}

#[test]
fn eq_pad_inner_shrinks_evenly() {
    let r = Rect::new(2, 3, 10, 6);
    assert_eq!(EqPad::new(1, 2).inner(r), Rect::new(3, 5, 8, 2));
    assert_eq!(EqPad::uniform(9).inner(r), Rect::new(7, 6, 0, 0));
    assert_eq!(EqPad::default().inner(r), r);
}

#[test]
fn corners_of_rect() {
    let c = Corners::from_rect(Rect::new(2, 3, 4, 5));
    assert_eq!(c.top_left, Position::new(2, 3));
    assert_eq!(c.top_right, Position::new(5, 3));
    assert_eq!(c.bottom_left, Position::new(2, 7));
    assert_eq!(c.bottom_right, Position::new(5, 7));
}

#[test]
fn button_label_is_centred() {
    assert_eq!(button_label_area(Rect::new(0, 0, 10, 3), 4), Rect::new(3, 1, 4, 1));
    assert!(is_button_drawn(Rect::new(0, 0, 2, 1)));
    assert!(!is_button_drawn(Rect::new(0, 0, 1, 3)));
    assert!(!is_button_drawn(Rect::new(0, 0, 4, 0)));
    assert_eq!(button_label_area(Rect::new(5, 2, 3, 1), 7), Rect::new(5, 2, 3, 1));
    assert!(ButtonState::default().set_focused(true).focused);
}

#[test]
fn button_simple_brackets_and_label() {
    let (l, r, line) = button_simple_layout(Rect::new(4, 1, 10, 1), 1);
    assert_eq!(l, Position::new(4, 1));
    assert_eq!(r, Position::new(13, 1));
    assert_eq!(line, Rect::new(6, 1, 8, 1));
}

#[test]
fn menu_first_shown_keeps_selection_visible() {
    assert_eq!(menu_first_shown(Some(5), 4), 2);
    assert_eq!(menu_first_shown(Some(2), 4), 0);
    assert_eq!(menu_first_shown(None, 1), 0);
}

#[test]
fn menu_labels_are_shortened_with_a_dot() {
    assert_eq!(shorten_label("rename", 6, 8, 2, 20), "rename");
    assert_eq!(shorten_label("rename", 6, 8, 2, 14), "ren.");
    assert_eq!(shorten_label("rename", 6, 8, 2, 10), "");
    // a label that fits is kept whatever its characters
    assert_eq!(shorten_label("réglage", 7, 2, 2, 20), "réglage");
    assert_eq!(menu_key_x(Rect::new(2, 0, 20, 4), 8), 14);
}

#[test]
fn menu_state_selection() {
    let mut s = MenuState::new();
    assert_eq!(s.selected(), None);
    assert_eq!(s.with_selected(3).selected(), Some(3));
    assert_eq!(s.selected(), Some(3));
    assert_eq!(MenuState::default().selected(), None);
}

#[test]
fn cursor_moves_stay_within_u16() {
    let c = Cursor::new(3, 4);
    let m = c.moved_by(-5, 2);
    assert_eq!((m.x(), m.y()), (0, 6));
    let big = Cursor::new(u16::MAX, 0).moved_by(1, 0);
    assert_eq!(big.x(), u16::MAX);
    let far = Cursor::new(0, 0).moved_by(i32::MAX, 0).moved_by(i32::MAX, 0);
    assert_eq!(far, Cursor::new(u16::MAX, 0));
    let up = Cursor::new(10, 10).moved_by(i32::MIN, 5);
    assert_eq!((up.x(), up.y()), (0, 15));
    assert_eq!(Cursor::from_coords((-1, 70000)), Cursor::new(0, 0));
    assert_eq!(Cursor::from_coords((7, 9)), Cursor::new(7, 9));
    assert_eq!(Cursor::from_position(Position::new(1, 2)), Cursor::new(1, 2));
    assert_eq!(Cursor::default(), Cursor::new(0, 0));
}

#[test]
fn field_builders() {
    let f = Field::from_str("a\nb").set_max_lines(Some(3)).set_max_line_len(Some(10));
    assert_eq!(f.lines, vec!["a".to_string(), "b".to_string()]);
    assert_eq!(f.max_lines, Some(3));
    assert_eq!(f.max_line_len, Some(10));
    assert_eq!(f.cursor, Cursor::new(0, 0));
    let h = Field::from_str("a\n\nb");
    assert_eq!(h.lines, vec!["a".to_string(), String::new(), "b".to_string()]);
    assert_eq!(Field::from_str("").lines, vec![String::new()]);
    let g = Field::new(vec!["x".to_string()]);
    assert_eq!(g.lines, vec!["x".to_string()]);
    assert_eq!(g.max_lines, None);
}

#[test]
fn input_action_ignores_modified_keys() {
    let plain = KeyInput { code: Key::Backspace, is_press: true, no_modifiers: true, ctrl: false };
    assert_eq!(InputAction::parse_event(plain), Some(InputAction::DeleteChar));
    let ctrl = KeyInput { code: Key::Char('a'), is_press: true, no_modifiers: false, ctrl: true };
    assert_eq!(InputAction::parse_event(ctrl), None);
    let c = KeyInput { code: Key::Char('a'), is_press: true, no_modifiers: true, ctrl: false };
    assert_eq!(InputAction::parse_event(c), Some(InputAction::Insert('a')));
    let other = KeyInput { code: Key::Other, is_press: true, no_modifiers: true, ctrl: false };
    assert_eq!(InputAction::parse_event(other), None);
}

#[test]
fn menu_rows_follow_the_selection() {
    let area = Rect::new(3, 10, 12, 3);
    let rows = menu_rows(area, Some(4), 6);
    assert_eq!(
        rows,
        vec![
            MenuRow { item: 2, y: 10, selected: false },
            MenuRow { item: 3, y: 11, selected: false },
            MenuRow { item: 4, y: 12, selected: true },
        ]
    );
    let few = menu_rows(area, None, 2);
    assert_eq!(
        few,
        vec![MenuRow { item: 0, y: 10, selected: false }, MenuRow { item: 1, y: 11, selected: false }]
    );
    assert!(menu_rows(Rect::new(0, 0, 0, 3), Some(0), 4).is_empty());
    assert!(menu_rows(area, Some(9), 4).is_empty());
    assert!(menu_drawn(area));
    assert!(!menu_drawn(Rect::new(1, 1, 5, 0)));
}
