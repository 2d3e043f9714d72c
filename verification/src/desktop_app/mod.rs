//! Data model of the desktop front end.
pub mod backups;
pub mod settings;
