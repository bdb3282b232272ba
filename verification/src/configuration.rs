//! The settings of one run.

use vstd::prelude::*;
use vstd::string::*;
use crate::userdirs::{config_dir, directory_text, home_dir};

verus! {

/// Fixed for the length of a run.
#[derive(Debug)]
pub struct Settings {
    /// The directory whose entries are the wallpapers.
    pub wallpaper_dir: String,
    /// Whether the lock screen is given each new wallpaper too.
    pub betterlockscreen: bool,
    /// The seconds that a wallpaper stays.
    pub sleep_time: u64,
}

/// The seconds that a wallpaper stays unless the settings say otherwise.
pub const DEFAULT_SLEEP_TIME: u64 = 1800;

/// Where the wallpapers are kept below the home directory by default.
pub const DEFAULT_WALLPAPER_SUBDIR: &'static str = "/Pictures/Wallpapers";

/// Where the configuration file lies below the configuration directory.
pub const CONFIGURATION_FILE: &'static str = "/wallshift/config.yml";

impl Settings {
    /// The settings of a user whose home directory is `home` and who has
    /// configured nothing.
    pub fn default_in(home: &str) -> (s: Settings)
        ensures
            s.wallpaper_dir@ == home@ + DEFAULT_WALLPAPER_SUBDIR@,
            !s.betterlockscreen,
            s.sleep_time == DEFAULT_SLEEP_TIME,
    {
        let mut dir: String = home.to_owned();
        dir.append(DEFAULT_WALLPAPER_SUBDIR);
        Settings { wallpaper_dir: dir, betterlockscreen: false, sleep_time: DEFAULT_SLEEP_TIME }
    }

    /// The default settings of the current user; `None` where no home
    /// directory is known.
    pub fn default_for_user() -> (r: Option<Settings>)
        ensures
            r matches Some(s) ==> {
                &&& exists|home: Seq<char>| s.wallpaper_dir@ == home + DEFAULT_WALLPAPER_SUBDIR@
                &&& !s.betterlockscreen
                &&& s.sleep_time == DEFAULT_SLEEP_TIME
            },
    {
        match directory_text(home_dir()) {
            Some(home) => {
                let s = Settings::default_in(home.as_str());
                assert(s.wallpaper_dir@ == home@ + DEFAULT_WALLPAPER_SUBDIR@);
                Some(s)
            },
            None => None,
        }
    }
}

/// The configuration file of a user whose configuration directory is `dir`.
pub fn configuration_path_in(dir: &str) -> (path: String)
    ensures
        path@ == dir@ + CONFIGURATION_FILE@,
{
    let mut path: String = dir.to_owned();
    path.append(CONFIGURATION_FILE);
    path
}

/// The configuration file of the current user; `None` where no
/// configuration directory is known.
pub fn configuration_path() -> (r: Option<String>)
    ensures
        r matches Some(path) ==> exists|dir: Seq<char>| path@ == dir + CONFIGURATION_FILE@,
{
    match directory_text(config_dir()) {
        Some(dir) => {
            let path = configuration_path_in(dir.as_str());
            assert(path@ == dir@ + CONFIGURATION_FILE@);
            Some(path)
        },
        None => None,
    }
}

} // verus!
