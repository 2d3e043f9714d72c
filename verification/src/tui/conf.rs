use vstd::prelude::*;

use crate::text::{join_path, joined_path};
use crate::tui::backups::Bkp;

verus! {

/// Directory under the local data directory where the application keeps its files.
pub const DATA_DIR_SUF: &'static str = "deltarune_drive_settings";

/// Name of the settings file inside the application directory.
pub const CONF_FILE: &'static str = "settings.json";

/// Where Deltarune's save files are: Steam's default place, or a custom path.
#[derive(Debug, PartialEq, Eq)]
pub enum DeltarunePath {
    Steam,
    Custom(String),
}

/// The application directory inside the given local data directory.
pub fn default_app_path(data_local_dir: &str) -> (p: String)
    ensures
        joined_path(data_local_dir@, DATA_DIR_SUF@, p@),
{
    join_path(data_local_dir, DATA_DIR_SUF)
}

/// The settings: where Deltarune keeps its saves, where the application keeps
/// its files, and the backups.
pub struct Conf {
    pub deltarune_path: DeltarunePath,
    pub app_path: String,
    pub bkps: Vec<Bkp>,
}

impl Conf {
    /// Default settings for the given local data directory: Steam's save
    /// location, the application directory inside it, and no backups.
    pub fn with_data_dir(data_local_dir: &str) -> (c: Self)
        ensures
            c.deltarune_path == DeltarunePath::Steam,
            joined_path(data_local_dir@, DATA_DIR_SUF@, c.app_path@),
            c.bkps@.len() == 0,
    {
        Conf {
            app_path: default_app_path(data_local_dir),
            deltarune_path: DeltarunePath::Steam,
            bkps: Vec::new(),
        }
    }

    /// Path of the settings file.
    pub fn settings_file(&self) -> (p: String)
        ensures
            joined_path(self.app_path@, CONF_FILE@, p@),
    {
        join_path(self.app_path.as_str(), CONF_FILE)
    }
}

} // verus!
