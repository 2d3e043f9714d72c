use vstd::prelude::*;

use crate::tui::input::{UiEvent, UiPress};
use crate::tui::my_widgets::input_line::{after_event, InputState, InputStateView};
use crate::tui::my_widgets::popup::BinaryChoice;

verus! {

/// The model of a popup that asks for a line of text and then for a yes/no
/// confirmation: `submit` is `None` while typing and holds the highlighted
/// answer once Enter was pressed.
pub struct InputModel {
    pub submit: Option<BinaryChoice>,
    pub input: InputState,
}

/// What the owner of an [`InputModel`] has to do after an event.
#[derive(Debug, Clone, Copy, PartialEq, Eq, Structural)]
pub enum InputModelCommand {
    Nothing,
    ConfirmInput,
    Close,
}

/// Whether the user confirmed a binary choice.
pub struct ConfirmedChoice(pub bool);

impl ConfirmedChoice {
    pub fn confirmed(self) -> (b: bool)
        ensures
            b == self.0,
    {
        self.0
    }
}

/// The choice after a press in a yes/no popup: Left picks yes, Right picks
/// no, anything else keeps the choice.
pub open spec fn choice_after(choice: BinaryChoice, press: UiPress) -> BinaryChoice {
    match press {
        UiPress::Left => BinaryChoice::Yes,
        UiPress::Right => BinaryChoice::No,
        _ => choice,
    }
}

/// Handles a press in a yes/no popup: Enter answers with the current choice
/// (`Some`, the choice unchanged); any other press answers nothing and
/// updates the choice as [`choice_after`] says.
pub fn handle_bchoice_ui(choice: &mut BinaryChoice, press: UiPress) -> (r: Option<ConfirmedChoice>)
    ensures
        press == UiPress::Enter ==> (r matches Some(c) && c.0 == old(choice).as_bool())
            && *final(choice) == *old(choice),
        press != UiPress::Enter ==> r is None && *final(choice) == choice_after(*old(choice), press),
{
    match press {
        UiPress::Enter => return Some(ConfirmedChoice(choice.as_bool())),
        UiPress::Left => *choice = BinaryChoice::Yes,
        UiPress::Right => *choice = BinaryChoice::No,
        _ => {},
    };
    None
}

/// The state of an input popup: the answer being picked, if any, and the text.
pub struct InputModelView {
    pub submit: Option<BinaryChoice>,
    pub input: InputStateView,
}

/// One step of an input popup: the state after the event and the command
/// for the owner.
///
/// While the answer is being picked, Enter on yes confirms the text (the
/// state is kept), Enter on no goes back to typing, Left/Right pick an answer,
/// and nothing else matters. While typing, Escape closes the popup, Enter
/// asks for confirmation with yes picked, and every other event edits the text.
pub open spec fn input_model_step(v: InputModelView, e: UiEvent) -> (InputModelView, InputModelCommand) {
    match v.submit {
        Some(choice) => match e {
            UiEvent::Press(UiPress::Enter) => if choice.as_bool() {
                (v, InputModelCommand::ConfirmInput)
            } else {
                (InputModelView { submit: None, ..v }, InputModelCommand::Nothing)
            },
            UiEvent::Press(press) => (
                InputModelView { submit: Some(choice_after(choice, press)), ..v },
                InputModelCommand::Nothing,
            ),
            UiEvent::Paste(_) => (v, InputModelCommand::Nothing),
        },
        None => match e {
            UiEvent::Press(UiPress::Escape) => (v, InputModelCommand::Close),
            UiEvent::Press(UiPress::Enter) => (
                InputModelView { submit: Some(BinaryChoice::Yes), ..v },
                InputModelCommand::Nothing,
            ),
            _ => (InputModelView { input: after_event(v.input, e), ..v }, InputModelCommand::Nothing),
        },
    }
}

impl View for InputModel {
    type V = InputModelView;

    open spec fn view(&self) -> InputModelView {
        InputModelView { submit: self.submit, input: self.input@ }
    }
}

impl InputModel {
    /// Handles a UI event; see [`input_model_step`].
    pub fn handle_ui_event(&mut self, e: UiEvent) -> (cmd: InputModelCommand)
        ensures
            (final(self)@, cmd) == input_model_step(old(self)@, e),
    {
        if let Some(choice) = &mut self.submit {
            // handling confirm information from user
            if let UiEvent::Press(press) = e {
                if let Some(handled_choice) = handle_bchoice_ui(choice, press) {
                    if handled_choice.confirmed() {
                        return InputModelCommand::ConfirmInput;
                    } else {
                        self.submit = None;
                    }
                }
            }
        } else {
            // handling input
            match e {
                UiEvent::Press(UiPress::Escape) => return InputModelCommand::Close,
                UiEvent::Press(UiPress::Enter) => self.submit = Some(BinaryChoice::Yes),
                _ => self.input.handle_event(e),
            }
        }
        InputModelCommand::Nothing
    }
}

impl Default for InputModel {
    /// A popup with empty text, still being typed into.
    fn default() -> (m: Self)
        ensures
            m.submit is None,
            m.input@.text.len() == 0,
            m.input@.cursor == 0,
            m.input@.max_chars == usize::MAX,
    {
        InputModel { submit: None, input: InputState::default() }
    }
}

/// The popups of the application.
pub enum Popup {
    NewBackup(InputModel),
    DeleteBackup(BinaryChoice),
}

} // verus!
