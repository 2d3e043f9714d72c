//! Terminal input: the library's model of terminal events and the UI events
//! derived from them.
pub mod event;

pub use event::{Key, KeyInput, TermEvent, UiEvent, UiPress};
