//! The second-generation state model of the terminal front end: a backup
//! list next to a backup page.
pub mod state;
