use deltarune_drive::tui::input::{UiEvent, UiPress};
use deltarune_drive::tui::my_widgets::popup::BinaryChoice;
use deltarune_drive::tui::popup_models::{handle_bchoice_ui, ConfirmedChoice, InputModel, InputModelCommand};

#[test]
fn binary_choice_as_bool() {
    assert!(BinaryChoice::Yes.as_bool());
    assert!(!BinaryChoice::No.as_bool());
    assert_eq!(BinaryChoice::default(), BinaryChoice::Yes);
}

#[test]
fn bchoice_enter_answers_with_current_choice() {
    let mut c = BinaryChoice::No;
    let r = handle_bchoice_ui(&mut c, UiPress::Enter);
    assert!(!r.unwrap().confirmed());
    assert_eq!(c, BinaryChoice::No);
    let mut c = BinaryChoice::Yes;
    assert!(handle_bchoice_ui(&mut c, UiPress::Enter).unwrap().confirmed());
}

#[test]
fn bchoice_left_right_pick_answer() {
    let mut c = BinaryChoice::Yes;
    assert!(handle_bchoice_ui(&mut c, UiPress::Right).is_none());
    assert_eq!(c, BinaryChoice::No);
    assert!(handle_bchoice_ui(&mut c, UiPress::Up).is_none());
    assert_eq!(c, BinaryChoice::No);
    assert!(handle_bchoice_ui(&mut c, UiPress::Left).is_none());
    assert_eq!(c, BinaryChoice::Yes);
}

#[test]
fn confirmed_choice_reports_its_value() {
    assert!(ConfirmedChoice(true).confirmed());
    assert!(!ConfirmedChoice(false).confirmed());
}

#[test]
fn input_model_confirm_flow() {
    let mut m = InputModel::default();
    assert_eq!(m.handle_ui_event(UiEvent::Press(UiPress::Char('a'))), InputModelCommand::Nothing);
    assert_eq!(m.handle_ui_event(UiEvent::Paste("bc")), InputModelCommand::Nothing);
    assert_eq!(m.input.text(), "abc");
    assert_eq!(m.handle_ui_event(UiEvent::Press(UiPress::Enter)), InputModelCommand::Nothing);
    assert_eq!(m.submit, Some(BinaryChoice::Yes));
    // typing while picking the answer does not touch the text
    assert_eq!(m.handle_ui_event(UiEvent::Press(UiPress::Char('x'))), InputModelCommand::Nothing);
    assert_eq!(m.handle_ui_event(UiEvent::Paste("y")), InputModelCommand::Nothing);
    assert_eq!(m.input.text(), "abc");
    assert_eq!(m.handle_ui_event(UiEvent::Press(UiPress::Right)), InputModelCommand::Nothing);
    assert_eq!(m.submit, Some(BinaryChoice::No));
    assert_eq!(m.handle_ui_event(UiEvent::Press(UiPress::Enter)), InputModelCommand::Nothing);
    assert_eq!(m.submit, None);
    assert_eq!(m.handle_ui_event(UiEvent::Press(UiPress::Enter)), InputModelCommand::Nothing);
    assert_eq!(m.handle_ui_event(UiEvent::Press(UiPress::Enter)), InputModelCommand::ConfirmInput);
    assert_eq!(m.submit, Some(BinaryChoice::Yes));
}

#[test]
fn input_model_escape_closes() {
    let mut m = InputModel::default();
    assert_eq!(m.handle_ui_event(UiEvent::Press(UiPress::Escape)), InputModelCommand::Close);
    m.submit = Some(BinaryChoice::Yes);
    assert_eq!(m.handle_ui_event(UiEvent::Press(UiPress::Escape)), InputModelCommand::Nothing);
    assert_eq!(m.submit, Some(BinaryChoice::Yes));
}
