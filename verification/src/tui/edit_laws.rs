//! What editing a one-line text input does, stated over the text and the
//! cursor directly.
use vstd::prelude::*;

use crate::tui::input::{UiEvent, UiPress};
use crate::tui::my_widgets::input_line::{
    after_event, deleted, inserted, moved_back, moved_forward, pasted, view_wf, InputStateView,
};
use crate::tui::popup_models::{input_model_step, InputModelCommand, InputModelView};

verus! {

/// Pasting puts the pasted text in at the cursor and moves the cursor past
/// it: all of it when it fits within the length limit, else as many of its
/// leading characters as fit, which fills the text up to the limit. The
/// limit never changes.
pub proof fn law_paste_puts_text_at_cursor(v: InputStateView, p: Seq<char>)
    requires
        view_wf(v),
        v.text.len() <= v.max_chars,
    ensures
        v.text.len() + p.len() <= v.max_chars ==> {
            &&& pasted(v, p).text == v.text.take(v.cursor as int) + p + v.text.skip(v.cursor as int)
            &&& pasted(v, p).cursor == v.cursor + p.len()
        },
        v.text.len() + p.len() > v.max_chars ==> {
            let n = v.max_chars - v.text.len();
            &&& pasted(v, p).text == v.text.take(v.cursor as int) + p.take(n) + v.text.skip(
                v.cursor as int,
            )
            &&& pasted(v, p).cursor == v.cursor + n
            &&& pasted(v, p).text.len() == v.max_chars
        },
        pasted(v, p).max_chars == v.max_chars,
{
    if v.text.len() + p.len() <= v.max_chars {
        assert(p.take(p.len() as int) =~= p);
    }
}

/// Pasting into an empty text with no length limit in the way gives
/// exactly the pasted text, with the cursor after it.
pub proof fn law_paste_into_empty_text(v: InputStateView, p: Seq<char>)
    requires
        v.text.len() == 0,
        v.cursor == 0,
        p.len() <= v.max_chars,
    ensures
        pasted(v, p).text == p,
        pasted(v, p).cursor == p.len(),
{
    law_paste_puts_text_at_cursor(v, p);
    assert(v.text.take(0) + p + v.text.skip(0) =~= p);
}

/// Typing a character puts it in at the cursor and moves the cursor past
/// it, unless the text already holds `max_chars` characters, when nothing
/// changes.
pub proof fn law_typing_puts_char_at_cursor(v: InputStateView, c: char)
    requires
        view_wf(v),
    ensures
        v.text.len() < v.max_chars ==> {
            &&& inserted(v, c).text == v.text.take(v.cursor as int) + seq![c] + v.text.skip(
                v.cursor as int,
            )
            &&& inserted(v, c).cursor == v.cursor + 1
            &&& inserted(v, c).max_chars == v.max_chars
        },
        v.text.len() >= v.max_chars ==> inserted(v, c) == v,
{
}

/// Backspace removes the character just before the cursor and moves the
/// cursor back onto its place; at the start of the text it changes nothing.
pub proof fn law_backspace_removes_char_before_cursor(v: InputStateView)
    requires
        view_wf(v),
    ensures
        v.cursor > 0 ==> {
            &&& deleted(v).text.len() + 1 == v.text.len()
            &&& deleted(v).text == v.text.take(v.cursor - 1) + v.text.skip(v.cursor as int)
            &&& deleted(v).cursor + 1 == v.cursor
            &&& deleted(v).max_chars == v.max_chars
        },
        v.cursor == 0 ==> deleted(v) == v,
{
}

/// Left moves the cursor one character towards the start and Right one
/// towards the end, neither past the ends of the text; neither changes the
/// text.
pub proof fn law_arrows_move_cursor(v: InputStateView)
    requires
        view_wf(v),
    ensures
        moved_back(v).text == v.text,
        moved_forward(v).text == v.text,
        moved_back(v).max_chars == v.max_chars,
        moved_forward(v).max_chars == v.max_chars,
        v.cursor > 0 ==> moved_back(v).cursor + 1 == v.cursor,
        v.cursor == 0 ==> moved_back(v).cursor == 0,
        v.cursor < v.text.len() ==> moved_forward(v).cursor == v.cursor + 1,
        v.cursor == v.text.len() ==> moved_forward(v).cursor == v.cursor,
{
}

/// Each UI event edits the input as its name says: Left and Right move the
/// cursor, Back deletes before it, a character is typed, a paste is pasted,
/// and Up, Down, Enter, Escape and Tab change nothing.
pub proof fn law_events_edit_as_named(v: InputStateView, c: char, s: &str)
    requires
        view_wf(v),
    ensures
        v.cursor > 0 ==> after_event(v, UiEvent::Press(UiPress::Left)).cursor + 1 == v.cursor,
        v.cursor < v.text.len() ==> after_event(v, UiEvent::Press(UiPress::Right)).cursor == v.cursor
            + 1,
        after_event(v, UiEvent::Press(UiPress::Left)).text == v.text,
        after_event(v, UiEvent::Press(UiPress::Right)).text == v.text,
        v.cursor > 0 ==> after_event(v, UiEvent::Press(UiPress::Back)).text == v.text.take(
            v.cursor - 1,
        ) + v.text.skip(v.cursor as int),
        v.text.len() < v.max_chars ==> after_event(v, UiEvent::Press(UiPress::Char(c))).text
            == v.text.take(v.cursor as int) + seq![c] + v.text.skip(v.cursor as int),
        v.text.len() + s@.len() <= v.max_chars ==> after_event(v, UiEvent::Paste(s)).text
            == v.text.take(v.cursor as int) + s@ + v.text.skip(v.cursor as int),
        after_event(v, UiEvent::Press(UiPress::Up)) == v,
        after_event(v, UiEvent::Press(UiPress::Down)) == v,
        after_event(v, UiEvent::Press(UiPress::Enter)) == v,
        after_event(v, UiEvent::Press(UiPress::Escape)) == v,
        after_event(v, UiEvent::Press(UiPress::Tab)) == v,
{
    if v.text.len() <= v.max_chars {
        law_paste_puts_text_at_cursor(v, s@);
    }
}

/// While a new-backup popup is being typed into, every event but Enter and
/// Escape edits its text as [`law_events_edit_as_named`] says, and asks
/// nothing of the owner.
pub proof fn law_popup_typing_edits_text(v: InputModelView, e: UiEvent)
    requires
        v.submit is None,
        e != UiEvent::Press(UiPress::Enter),
        e != UiEvent::Press(UiPress::Escape),
    ensures
        input_model_step(v, e).0.input == after_event(v.input, e),
        input_model_step(v, e).0.submit is None,
        input_model_step(v, e).1 == InputModelCommand::Nothing,
{
}

} // verus!
