//! Terminal front end: application state, focus handling, popups and widgets.
pub mod app;
pub mod backups;
pub mod conf;
pub mod edit_laws;
pub mod focus_manager;
pub mod geometry_laws;
pub mod input;
pub mod key_laws;
pub mod laws;
pub mod layout;
pub mod manage_focus;
pub mod model;
pub mod my_widgets;
pub mod popup_models;
pub mod render;
pub mod startup;
