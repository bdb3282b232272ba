//! The errors that the library reports.

use vstd::prelude::*;

verus! {

/// Text that could not be read as what it should hold: a frame's file name
/// without a number, a malformed state record.
#[derive(Debug)]
pub struct ParsingError {
    pub message: String,
}

/// A file or a directory that is missing, unreadable or not where a
/// wallpaper can be.
#[derive(Debug)]
pub struct FileError {
    pub message: String,
}

/// The program that sets the background could not be run, or failed.
#[derive(Debug)]
pub struct ExecError {
    pub message: String,
}

/// The sequence's directory could not be read when the time to wait was
/// asked for, or holds nothing to divide by.
#[derive(Debug)]
pub struct TimerError {
    pub message: String,
}

/// No wallpaper could be selected.
#[derive(Debug, Clone, Copy, PartialEq, Eq, Structural)]
pub enum SelectionError {
    /// The wallpaper directory holds no entry that is not hidden.
    EmptyPool,
    /// Every draw that was allowed hit a sequence without frames.
    RetriesExhausted,
}

/// Any error of the library, by kind.
#[derive(Debug)]
#[allow(inconsistent_fields)]
pub enum WallshiftError {
    Parsing { source: ParsingError },
    File { source: FileError },
    Exec { source: ExecError },
    Selection { source: SelectionError },
    Timer { source: TimerError },
}

impl ParsingError {
    pub fn new(message: &str) -> (e: Self)
        ensures
            e.message@ == message@,
    {
        ParsingError { message: message.to_owned() }
    }

    /// The error's text: its message.
    pub fn to_string(&self) -> (s: String)
        ensures
            s@ == self.message@,
    {
        self.message.clone()
    }
}

impl FileError {
    pub fn new(message: &str) -> (e: Self)
        ensures
            e.message@ == message@,
    {
        FileError { message: message.to_owned() }
    }

    /// The error's text: its message.
    pub fn to_string(&self) -> (s: String)
        ensures
            s@ == self.message@,
    {
        self.message.clone()
    }
}

impl ExecError {
    pub fn new(message: &str) -> (e: Self)
        ensures
            e.message@ == message@,
    {
        ExecError { message: message.to_owned() }
    }

    /// The error's text: its message.
    pub fn to_string(&self) -> (s: String)
        ensures
            s@ == self.message@,
    {
        self.message.clone()
    }
}

impl TimerError {
    pub fn new(message: &str) -> (e: Self)
        ensures
            e.message@ == message@,
    {
        TimerError { message: message.to_owned() }
    }

    /// The error's text: its message.
    pub fn to_string(&self) -> (s: String)
        ensures
            s@ == self.message@,
    {
        self.message.clone()
    }
}

pub const EMPTY_POOL_TEXT: &'static str = "no wallpapers in the wallpaper directory";

pub const RETRIES_EXHAUSTED_TEXT: &'static str = "every sequence that was drawn has no frame to show";

impl SelectionError {
    /// The error's text.
    pub fn to_string(&self) -> (s: String)
        ensures
            s@ == match *self {
                SelectionError::EmptyPool => EMPTY_POOL_TEXT@,
                SelectionError::RetriesExhausted => RETRIES_EXHAUSTED_TEXT@,
            },
    {
        match self {
            SelectionError::EmptyPool => EMPTY_POOL_TEXT.to_owned(),
            SelectionError::RetriesExhausted => RETRIES_EXHAUSTED_TEXT.to_owned(),
        }
    }
}

impl WallshiftError {
    /// The text of the error's source.
    pub open spec fn detail_text(&self) -> Seq<char> {
        match *self {
            WallshiftError::Parsing { source } => source.message@,
            WallshiftError::File { source } => source.message@,
            WallshiftError::Exec { source } => source.message@,
            WallshiftError::Timer { source } => source.message@,
            WallshiftError::Selection { source } => match source {
                SelectionError::EmptyPool => EMPTY_POOL_TEXT@,
                SelectionError::RetriesExhausted => RETRIES_EXHAUSTED_TEXT@,
            },
        }
    }

    /// The text of the error's source: what went wrong, in words.
    pub fn detail(&self) -> (s: String)
        ensures
            s@ == self.detail_text(),
    {
        match self {
            WallshiftError::Parsing { source } => source.to_string(),
            WallshiftError::File { source } => source.to_string(),
            WallshiftError::Exec { source } => source.to_string(),
            WallshiftError::Timer { source } => source.to_string(),
            WallshiftError::Selection { source } => source.to_string(),
        }
    }

    /// The error's text: the name of its kind. The source holds the detail.
    pub fn to_string(&self) -> (s: String)
        ensures
            s@ == match *self {
                WallshiftError::Parsing { .. } => "Parsing error"@,
                WallshiftError::File { .. } => "File error"@,
                WallshiftError::Exec { .. } => "Exec error"@,
                WallshiftError::Selection { .. } => "Selection error"@,
                WallshiftError::Timer { .. } => "Timer error"@,
            },
    {
        match self {
            WallshiftError::Parsing { .. } => "Parsing error".to_owned(),
            WallshiftError::File { .. } => "File error".to_owned(),
            WallshiftError::Exec { .. } => "Exec error".to_owned(),
            WallshiftError::Selection { .. } => "Selection error".to_owned(),
            WallshiftError::Timer { .. } => "Timer error".to_owned(),
        }
    }
}

} // verus!
