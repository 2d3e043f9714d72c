use vstd::prelude::*;

verus! {

/// The key codes of a terminal key event that the UI reads; every other
/// key code is `Other`.
#[derive(Debug, Clone, Copy, PartialEq, Eq, Structural)]
pub enum Key {
    Backspace,
    Enter,
    Left,
    Right,
    Up,
    Down,
    Tab,
    Esc,
    Char(char),
    Other,
}

/// A terminal key event: its code, whether it is a press (rather than a
/// release or repeat), whether no modifier key is held, and whether the
/// control key is held.
#[derive(Debug, Clone, Copy, PartialEq, Eq, Structural)]
pub struct KeyInput {
    pub code: Key,
    pub is_press: bool,
    pub no_modifiers: bool,
    pub ctrl: bool,
}

/// A terminal event: a key event, a bracketed paste, or anything else
/// (mouse, resize, focus).
#[derive(Debug, Clone, PartialEq, Eq)]
pub enum TermEvent {
    Key(KeyInput),
    Paste(String),
    Other,
}

/// An event the UI reacts to.
#[derive(Debug, Clone, PartialEq, Eq)]
pub enum UiEvent<'paste> {
    Paste(&'paste str),
    Press(UiPress),
}

/// A key press the UI reacts to.
#[derive(Debug, Clone, Copy, PartialEq, Eq, Structural)]
pub enum UiPress {
    Right,
    Left,
    Up,
    Down,
    Enter,
    Escape,
    Tab,
    Back,
    Char(char),
}

/// The press that a key code stands for, if the UI reacts to it.
pub open spec fn press_of_key(code: Key) -> Option<UiPress> {
    match code {
        Key::Right => Some(UiPress::Right),
        Key::Left => Some(UiPress::Left),
        Key::Up => Some(UiPress::Up),
        Key::Down => Some(UiPress::Down),
        Key::Enter => Some(UiPress::Enter),
        Key::Esc => Some(UiPress::Escape),
        Key::Tab => Some(UiPress::Tab),
        Key::Char(c) => Some(UiPress::Char(c)),
        _ => None,
    }
}

/// Control-V pressed: the paste shortcut, which is not handled yet.
pub open spec fn is_paste_shortcut(key: KeyInput) -> bool {
    &&& key.is_press
    &&& key.ctrl
    &&& (key.code == Key::Char('v') || key.code == Key::Char('V'))
}

/// Q pressed (either case): the key that quits the application.
pub open spec fn is_quit_key(e: TermEvent) -> bool {
    e matches TermEvent::Key(key) && key.is_press && (key.code == Key::Char('q') || key.code
        == Key::Char('Q'))
}

impl TermEvent {
    /// Whether this event is a press of Q, which quits; see [`is_quit_key`].
    pub fn is_quit(&self) -> (b: bool)
        ensures
            b == is_quit_key(*self),
    {
        match self {
            TermEvent::Key(key) => key.is_press && (key.code == Key::Char('q') || key.code == Key::Char('Q')),
            _ => false,
        }
    }

    /// Whether this event is the paste shortcut, which
    /// [`UiEvent::parse_event`] does not take; see [`is_paste_shortcut`].
    pub fn is_paste_shortcut_press(&self) -> (b: bool)
        ensures
            b == (*self matches TermEvent::Key(key) && is_paste_shortcut(key)),
    {
        match self {
            TermEvent::Key(key) => key.is_press && key.ctrl && (key.code == Key::Char('v') || key.code
                == Key::Char('V')),
            _ => false,
        }
    }
}

impl<'a> UiEvent<'a> {
    /// Turns a terminal event into a UI event: a paste keeps its text, a key
    /// press keeps the keys in [`press_of_key`], everything else is dropped.
    pub fn parse_event(e: &'a TermEvent) -> (r: Option<UiEvent<'a>>)
        requires
            !(e matches TermEvent::Key(key) && is_paste_shortcut(*key)),
        ensures
            match e {
                TermEvent::Paste(s) => r matches Some(UiEvent::Paste(p)) && p@ == s@,
                TermEvent::Key(key) => if key.is_press {
                    match press_of_key(key.code) {
                        Some(press) => r == Some(UiEvent::Press(press)),
                        None => r is None,
                    }
                } else {
                    r is None
                },
                TermEvent::Other => r is None,
            },
    {
        match e {
            TermEvent::Paste(paste) => Some(UiEvent::Paste(paste.as_str())),
            TermEvent::Key(key) => {
                if !key.is_press {
                    return None;
                }
                let press = match key.code {
                    Key::Right => UiPress::Right,
                    Key::Left => UiPress::Left,
                    Key::Up => UiPress::Up,
                    Key::Down => UiPress::Down,
                    Key::Enter => UiPress::Enter,
                    Key::Esc => UiPress::Escape,
                    Key::Tab => UiPress::Tab,
                    Key::Char(c) => UiPress::Char(c),
                    _ => return None,
                };
                Some(UiEvent::Press(press))
            },
            TermEvent::Other => None,
        }
    }
}

} // verus!
