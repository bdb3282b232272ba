//! The command line's options, and what they select.

use vstd::prelude::*;
use crate::configuration::Settings;

verus! {

/// What one invocation of the program is asked to do.
#[derive(Debug)]
pub enum Actions {
    /// Cycle wallpapers until the process ends.
    Launch,
    /// Change the wallpaper once.
    Toggle,
    /// Say which wallpaper would come next, and change nothing.
    Get,
    /// Pause cycling.
    Stop,
    /// Resume cycling.
    Resume,
    /// Show the wallpaper at this path.
    SetExplicit(String),
}

/// The options as they were given.
#[derive(Debug)]
pub struct Cli {
    /// Toggle wallpaper.
    pub toggle: bool,
    /// Time between toggles in seconds.
    pub seconds: Option<u64>,
    /// Time between toggles in minutes.
    pub minutes: Option<u64>,
    /// Get current wallpaper.
    pub get: bool,
    /// Sets the current wallpaper to a specific one.
    pub set: Option<String>,
    /// Resumes the usual cycle.
    pub resume: bool,
    /// Stops the slideshow.
    pub stop: bool,
    /// Updates the lock screen's wallpaper too.
    pub betterlockscreen: Option<bool>,
}

/// The seconds that the options ask for: those given in seconds, else those
/// given in minutes, at most `u64::MAX`.
pub open spec fn seconds_of(seconds: Option<u64>, minutes: Option<u64>) -> Option<u64> {
    match seconds {
        Some(s) => Some(s),
        None => match minutes {
            Some(m) => if m * 60 > u64::MAX {
                Some(u64::MAX)
            } else {
                Some((m * 60) as u64)
            },
            None => None,
        },
    }
}

impl Cli {
    /// The time between wallpapers that the options ask for, in seconds.
    pub fn get_seconds(&self) -> (r: Option<u64>)
        ensures
            r == seconds_of(self.seconds, self.minutes),
    {
        if let Some(seconds) = self.seconds {
            return Some(seconds);
        }
        if let Some(minutes) = self.minutes {
            if minutes > u64::MAX / 60 {
                return Some(u64::MAX);
            }
            return Some(minutes * 60);
        }
        None
    }

    /// The settings of this run: those of `base`, which the caller loaded,
    /// with what the options override.
    pub fn get_settings(&self, base: Settings) -> (settings: Settings)
        ensures
            settings.wallpaper_dir@ == base.wallpaper_dir@,
            settings.sleep_time == match seconds_of(self.seconds, self.minutes) {
                Some(seconds) => seconds,
                None => base.sleep_time,
            },
            settings.betterlockscreen == match self.betterlockscreen {
                Some(value) => value,
                None => base.betterlockscreen,
            },
    {
        let mut settings = base;
        if let Some(seconds) = self.get_seconds() {
            settings.sleep_time = seconds;
        }
        if let Some(betterlockscreen) = self.betterlockscreen {
            settings.betterlockscreen = betterlockscreen;
        }
        settings
    }

    /// The action that the options select. Where several are given, the
    /// first of toggle, get, resume, stop and set counts; without any, the
    /// program cycles.
    pub fn get_action(&self) -> (action: Actions)
        ensures
            action_matches(*self, action),
    {
        if self.toggle {
            return Actions::Toggle;
        }
        if self.get {
            return Actions::Get;
        }
        if self.resume {
            return Actions::Resume;
        }
        if self.stop {
            return Actions::Stop;
        }
        if let Some(wallpaper) = &self.set {
            return Actions::SetExplicit(wallpaper.clone());
        }
        Actions::Launch
    }
}

/// Whether `action` is what the options select.
pub open spec fn action_matches(cli: Cli, action: Actions) -> bool {
    if cli.toggle {
        action is Toggle
    } else if cli.get {
        action is Get
    } else if cli.resume {
        action is Resume
    } else if cli.stop {
        action is Stop
    } else {
        match cli.set {
            Some(wallpaper) => action matches Actions::SetExplicit(path) && path@ == wallpaper@,
            None => action is Launch,
        }
    }
}

} // verus!
