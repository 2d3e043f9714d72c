use vstd::prelude::*;

use crate::desktop_app::backups::Bkp;

verus! {

/// Where Deltarune's save files are: Steam's default place, or a custom path.
#[derive(Debug, PartialEq, Eq)]
pub enum DeltarunePath {
    Steam,
    Custom(String),
}

/// Directory where backups are kept unless the settings say otherwise.
pub const DEFAULT_BKPS_PATH: &'static str = "./backups";

/// The settings of the desktop front end.
pub struct Settings {
    pub deltarune_path: DeltarunePath,
    pub bkps_path: String,
    pub bkps: Vec<Bkp>,
}

impl Default for Settings {
    /// No backups, kept in `./backups`, with Deltarune where Steam puts it.
    fn default() -> (s: Self)
        ensures
            s.bkps@.len() == 0,
            s.bkps_path@ == DEFAULT_BKPS_PATH@,
            s.deltarune_path == DeltarunePath::Steam,
    {
        Self {
            bkps: Vec::new(),
            bkps_path: DEFAULT_BKPS_PATH.to_owned(),
            deltarune_path: DeltarunePath::Steam,
        }
    }
}

} // verus!
