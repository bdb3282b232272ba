//! The user's directories, as the platform reports them.
//!
//! What comes back depends on the environment, so nothing is promised of
//! it: the callers state what they build from whatever they are given.

use vstd::prelude::*;

verus! {

#[verifier::external_type_specification]
#[verifier::external_body]
pub struct ExPathBuf(std::path::PathBuf);

/// `dirs::home_dir`: the user's home directory, where one is known.
#[verifier::external_body]
pub(crate) fn home_dir() -> (r: Option<std::path::PathBuf>) {
    dirs::home_dir()
}

/// `dirs::config_dir`: the directory for the user's configuration files,
/// where one is known.
#[verifier::external_body]
pub(crate) fn config_dir() -> (r: Option<std::path::PathBuf>) {
    dirs::config_dir()
}

/// `dirs::data_local_dir`: the directory for the user's local data, where
/// one is known.
#[verifier::external_body]
pub(crate) fn data_local_dir() -> (r: Option<std::path::PathBuf>) {
    dirs::data_local_dir()
}

/// `std::path::Path::to_str`: the path as text, where it is valid Unicode.
#[verifier::external_body]
pub(crate) fn path_text(path: &std::path::PathBuf) -> (r: Option<String>) {
    match path.to_str() {
        Some(text) => Some(text.to_owned()),
        None => None,
    }
}

/// The text of a directory that the platform reported, as long as there is
/// one and it is valid Unicode. Without a directory there is no text; with
/// one, whether there is text is for `Path::to_str` to say.
pub(crate) fn directory_text(dir: Option<std::path::PathBuf>) -> (r: Option<String>)
    ensures
        dir is None ==> r is None,
{
    match dir {
        Some(path) => path_text(&path),
        None => None,
    }
}

} // verus!
