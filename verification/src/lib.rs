//! Deltarune Drive: backup manager for Deltarune save files.
//!
//! The crate holds the state machines, text editing and layout arithmetic of
//! the terminal front end (`tui`), the data model of the desktop front end
//! (`desktop_app`) and the Steam save-directory lookup (`steam_deltarune`).
pub mod date;
pub mod desktop_app;
pub mod steam_deltarune;
pub mod text;
pub mod tui;
