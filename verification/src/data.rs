//! The record of what is shown now, and of whether cycling is on.
//!
//! The record lives in one file below the user's local data directory.
//! Reading and writing that file is the caller's part; what the record
//! holds, and how each command changes it, is decided here.

use vstd::prelude::*;
use vstd::string::*;
use crate::error::FileError;
use crate::path::{File, PathKind};
use crate::userdirs::{data_local_dir, path_text};

verus! {

/// The persisted state.
#[derive(Debug)]
pub struct FileInfo {
    /// The path of the wallpaper that is shown now; empty where none was
    /// shown yet.
    pub wallpaper: String,
    /// Whether cycling is on.
    pub on: bool,
}

impl Default for FileInfo {
    /// The state before anything was written: no wallpaper, cycling on.
    fn default() -> (info: Self)
        ensures
            info.wallpaper@ == Seq::<char>::empty(),
            info.on,
    {
        FileInfo { wallpaper: String::new(), on: true }
    }
}

/// The directory of the record, below the local data directory.
pub const STATE_DIRECTORY: &'static str = "/wallshift";

/// The file of the record, below its directory.
pub const STATE_FILE: &'static str = "/.current_wallpaper.yaml";

pub const NO_DATA_DIRECTORY_TEXT: &'static str = "failed to get local data directory";

pub const NOT_UNICODE_TEXT: &'static str = "failed to convert wallpaper info path to str";

pub const NO_CURRENT_WALLPAPER_TEXT: &'static str =
    "failed to get current wallpaper: failed to create file";

/// The directory that holds the record of a user whose local data
/// directory is `data_dir`.
pub fn state_directory_in(data_dir: &str) -> (path: String)
    ensures
        path@ == data_dir@ + STATE_DIRECTORY@,
{
    let mut path: String = data_dir.to_owned();
    path.append(STATE_DIRECTORY);
    path
}

/// The file that holds the record of a user whose local data directory is
/// `data_dir`.
pub fn wallpaper_info_path_in(data_dir: &str) -> (path: String)
    ensures
        path@ == data_dir@ + STATE_DIRECTORY@ + STATE_FILE@,
{
    let mut path: String = state_directory_in(data_dir);
    path.append(STATE_FILE);
    path
}

/// Returns the path to the current wallpaper information file of the
/// current user. Fails where no local data directory is known, or where
/// its path is not valid Unicode.
pub fn get_wallpaper_info_path() -> (r: Result<String, FileError>)
    ensures
        match r {
            Ok(path) => exists|data_dir: Seq<char>|
                path@ == data_dir + STATE_DIRECTORY@ + STATE_FILE@,
            Err(e) => e.message@ == NO_DATA_DIRECTORY_TEXT@ || e.message@ == NOT_UNICODE_TEXT@,
        },
{
    match data_local_dir() {
        None => Err(FileError::new(NO_DATA_DIRECTORY_TEXT)),
        Some(dir) => match path_text(&dir) {
            None => Err(FileError::new(NOT_UNICODE_TEXT)),
            Some(text) => {
                let path = wallpaper_info_path_in(text.as_str());
                assert(path@ == text@ + STATE_DIRECTORY@ + STATE_FILE@);
                Ok(path)
            },
        },
    }
}

/// The record as `change` makes it.
pub fn modify_config<F: Fn(FileInfo) -> FileInfo>(info: FileInfo, change: F) -> (r: FileInfo)
    requires
        change.requires((info,)),
    ensures
        change.ensures((info,), r),
{
    change(info)
}

/// The record after `wallpaper` was shown: only the wallpaper changes.
pub fn save_wallpaper(info: FileInfo, wallpaper: &str) -> (r: FileInfo)
    ensures
        r.wallpaper@ == wallpaper@,
        r.on == info.on,
{
    FileInfo { wallpaper: wallpaper.to_owned(), on: info.on }
}

/// Gets the current wallpaper that the record names, where `kind` was
/// found at its path. Fails exactly where nothing was found there.
pub fn get_current_wallpaper(info: &FileInfo, kind: PathKind) -> (r: Result<File, FileError>)
    ensures
        match kind {
            PathKind::Missing => r matches Err(e) && e.message@ == NO_CURRENT_WALLPAPER_TEXT@,
            PathKind::Regular => r matches Ok(File::Image(image)) && image@ == info.wallpaper@
                && !image.is_cached(),
            PathKind::Directory => r matches Ok(File::Folder(folder)) && folder@
                == info.wallpaper@,
        },
{
    match File::new(info.wallpaper.clone(), kind) {
        Some(file) => Ok(file),
        None => Err(FileError::new(NO_CURRENT_WALLPAPER_TEXT)),
    }
}

/// Whether cycling is on.
pub fn is_on(info: &FileInfo) -> (r: bool)
    ensures
        r == info.on,
{
    info.on
}

/// The record with cycling switched off: the wallpaper stays.
pub fn set_off(info: FileInfo) -> (r: FileInfo)
    ensures
        r.wallpaper@ == info.wallpaper@,
        !r.on,
{
    FileInfo { wallpaper: info.wallpaper, on: false }
}

/// The record with cycling switched on: the wallpaper stays.
pub fn set_on(info: FileInfo) -> (r: FileInfo)
    ensures
        r.wallpaper@ == info.wallpaper@,
        r.on,
{
    FileInfo { wallpaper: info.wallpaper, on: true }
}

} // verus!
