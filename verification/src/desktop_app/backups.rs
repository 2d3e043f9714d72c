use vstd::prelude::*;

use crate::date::{is_clock_time, utc_now, UtcTime};

verus! {

/// When a backup was made or last updated.
pub type Date = UtcTime;

/// A backup listed in the settings.
pub struct RegisteredBkp {
    pub name: String,
    pub desc: String,
    pub creation_date: Date,
    pub update_date: Option<Date>,
}

impl RegisteredBkp {
    /// An unnamed backup with no description, created now and never updated.
    pub fn new() -> (b: Self)
        ensures
            b.name@.len() == 0,
            b.desc@.len() == 0,
            b.update_date is None,
            is_clock_time(b.creation_date),
    {
        Self::default()
    }
}

impl Default for RegisteredBkp {
    fn default() -> (b: Self)
        ensures
            b.name@.len() == 0,
            b.desc@.len() == 0,
            b.update_date is None,
            is_clock_time(b.creation_date),
    {
        RegisteredBkp {
            name: String::new(),
            desc: String::new(),
            creation_date: utc_now(),
            update_date: None,
        }
    }
}

/// A backup: listed in the settings, or only found in the backups directory.
pub enum Bkp {
    Registered(RegisteredBkp),
    /// Backups not listed inside `settings.toml` but listed in the backups directory
    Unregistered { path: String },
}

} // verus!
