//! Wallpaper selection and sequencing.
//!
//! A directory of wallpapers holds plain images and, one level down, the
//! numbered frames of animated sequences. This library decides which image
//! is shown next and for how long; reading directories, running the program
//! that sets the background and sleeping are left to the caller, who hands
//! in what it found as plain values.

pub mod cli;
pub mod configuration;
pub mod data;
pub mod error;
pub mod path;
pub mod pathname;
pub mod setup;
pub mod userdirs;
pub mod wallpaper;
