use deltarune_drive::tui::input::{UiEvent, UiPress};
use deltarune_drive::tui::layout::Rect;
use deltarune_drive::tui::my_widgets::input_line::{input_layout, InputState};

fn state(s: &str) -> InputState {
    InputState::new(s.to_string())
}

#[test]
fn new_state_holds_text_with_cursor_at_start() {
    let st = state("héllo");
    assert_eq!(st.text(), "héllo");
    assert_eq!(st.len(), 6);
    assert!(!st.is_empty());
    assert_eq!(st.cursor_byte_index(), 0);
    assert!(InputState::default().is_empty());
    assert_eq!(InputState::default().len(), 0);
}

#[test]
fn typing_inserts_at_cursor() {
    let mut st = InputState::default();
    st.insert_on_index('a');
    st.insert_on_index('c');
    st.handle_event(UiEvent::Press(UiPress::Left));
    st.insert_on_index('b');
    assert_eq!(st.text(), "abc");
    assert_eq!(st.cursor_byte_index(), 2);
}

#[test]
fn delete_after_insert_restores_text() {
    let mut st = state("xyz");
    st.handle_event(UiEvent::Press(UiPress::Right));
    st.insert_on_index('é');
    assert_eq!(st.text(), "xéyz");
    assert_eq!(st.cursor_byte_index(), 3);
    st.delete_on_index();
    assert_eq!(st.text(), "xyz");
    assert_eq!(st.cursor_byte_index(), 1);
}

#[test]
fn delete_at_start_does_nothing() {
    let mut st = state("ab");
    st.delete_on_index();
    assert_eq!(st.text(), "ab");
    assert_eq!(st.cursor_byte_index(), 0);
}

#[test]
fn cursor_stops_at_both_ends() {
    let mut st = state("ab");
    st.handle_event(UiEvent::Press(UiPress::Left));
    assert_eq!(st.cursor_byte_index(), 0);
    st.handle_event(UiEvent::Press(UiPress::Right));
    st.handle_event(UiEvent::Press(UiPress::Right));
    st.handle_event(UiEvent::Press(UiPress::Right));
    assert_eq!(st.cursor_byte_index(), 2);
    st.handle_event(UiEvent::Press(UiPress::Left));
    st.handle_event(UiEvent::Press(UiPress::Right));
    assert_eq!(st.cursor_byte_index(), 2);
}

#[test]
fn paste_goes_in_at_cursor() {
    let mut st = state("ad");
    st.handle_event(UiEvent::Press(UiPress::Right));
    st.handle_event(UiEvent::Paste("bç"));
    assert_eq!(st.text(), "abçd");
    assert_eq!(st.cursor_byte_index(), 4);
    st.paste_on_index("");
    assert_eq!(st.text(), "abçd");
}

#[test]
fn back_press_deletes_and_other_presses_are_ignored() {
    let mut st = state("ab");
    st.handle_event(UiEvent::Press(UiPress::Right));
    st.handle_event(UiEvent::Press(UiPress::Right));
    st.handle_event(UiEvent::Press(UiPress::Back));
    assert_eq!(st.text(), "a");
    st.handle_event(UiEvent::Press(UiPress::Up));
    st.handle_event(UiEvent::Press(UiPress::Enter));
    st.handle_event(UiEvent::Press(UiPress::Char('z')));
    assert_eq!(st.text(), "az");
}

#[test]
fn take_buf_empties_the_state() {
    let mut st = state("name");
    st.handle_event(UiEvent::Press(UiPress::Right));
    let taken = st.take_buf();
    assert_eq!(taken, "name");
    assert!(st.is_empty());
    assert_eq!(st.cursor_byte_index(), 0);
}

#[test]
fn input_layout_highlights_cursor_cell() {
    let area = Rect::new(0, 0, 10, 1);
    assert_eq!(input_layout("héllo", Some(3), area), (5, Some(2)));
    assert_eq!(input_layout("héllo", Some(6), area), (5, Some(5)));
    assert_eq!(input_layout("héllo", Some(2), area), (5, None));
    assert_eq!(input_layout("héllo", None, area), (5, None));
}

#[test]
fn input_layout_cuts_long_text() {
    let area = Rect::new(3, 0, 3, 1);
    assert_eq!(input_layout("abcdef", Some(6), area), (3, None));
    assert_eq!(input_layout("abc", Some(3), area), (3, None));
    assert_eq!(input_layout("ab", Some(2), area), (2, Some(2)));
    assert_eq!(input_layout("abc", Some(0), Rect::new(0, 0, 0, 1)), (0, None));
    assert_eq!(input_layout("abc", Some(0), Rect::new(u16::MAX - 1, 0, 5, 1)), (1, Some(0)));
}
