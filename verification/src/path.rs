//! Wallpaper paths and what they are.
//!
//! A file directly inside the wallpaper directory is a static image; a
//! directory directly inside it is an animated sequence; a file inside such
//! a directory is one frame of the sequence, numbered by the digits that end
//! its name. Whether a path exists, and as what, is for the caller to find
//! out: it hands that in as a `PathKind`.

use vstd::prelude::*;
use vstd::string::*;
use crate::configuration::Settings;
use crate::error::{FileError, ParsingError, TimerError, WallshiftError};
use crate::pathname::{
    child_of, file_name, file_name_of, file_stem, frame_number_of, frame_path_of, is_digit,
    lemma_child_parts, lemma_frame_path_parts, lemma_parent_is_shorter, parent, parent_of,
    parse_trailing_number, SEPARATOR,
};

verus! {

/// What was found at a path.
#[derive(Debug, Clone, Copy, PartialEq, Eq, Structural)]
pub enum PathKind {
    /// Nothing is there.
    Missing,
    /// Something that is no directory.
    Regular,
    /// A directory.
    Directory,
}

/// A path, classified against the wallpaper directory.
pub enum WallpaperEntry {
    /// A file directly inside the wallpaper directory.
    StaticImage { path: Seq<char> },
    /// A file inside a directory that is directly inside the wallpaper
    /// directory.
    SequenceFrame { path: Seq<char>, sequence_name: Seq<char>, frame_index: u32 },
    /// A directory directly inside the wallpaper directory.
    SequenceRoot { path: Seq<char>, sequence_name: Seq<char> },
}

/// Why a path is no wallpaper entry.
pub enum Misfit {
    /// Nothing exists at the path.
    Missing,
    /// The path is not at a depth where a wallpaper of its kind can be.
    Misplaced,
    /// The path is where a frame would be, but its name does not end in a
    /// number that fits.
    Unnumbered,
}

/// Whether `path` lies exactly one level below `root`.
pub open spec fn is_directly_below(path: Seq<char>, root: Seq<char>) -> bool {
    parent_of(path) == Some(root)
}

/// Whether `path` lies exactly two levels below `root`.
pub open spec fn is_two_below(path: Seq<char>, root: Seq<char>) -> bool {
    parent_of(path) matches Some(dir) && parent_of(dir) == Some(root)
}

/// No path lies both one and two levels below the same directory.
pub proof fn lemma_not_both_depths(path: Seq<char>, root: Seq<char>)
    ensures
        !(is_directly_below(path, root) && is_two_below(path, root)),
{
    lemma_parent_is_shorter(root);
}

/// The name of the directory that holds `path`.
pub open spec fn folder_name_of(path: Seq<char>) -> Seq<char> {
    match parent_of(path) {
        Some(dir) => file_name_of(dir),
        None => Seq::empty(),
    }
}

/// The classification of a path by its depth below the wallpaper directory
/// and by what was found there.
pub open spec fn classify_spec(path: Seq<char>, kind: PathKind, root: Seq<char>) -> Result<
    WallpaperEntry,
    Misfit,
> {
    match kind {
        PathKind::Missing => Err(Misfit::Missing),
        PathKind::Directory => if is_directly_below(path, root) {
            Ok(WallpaperEntry::SequenceRoot { path, sequence_name: file_name_of(path) })
        } else {
            Err(Misfit::Misplaced)
        },
        PathKind::Regular => if is_directly_below(path, root) {
            Ok(WallpaperEntry::StaticImage { path })
        } else if is_two_below(path, root) {
            match frame_number_of(path) {
                Some(frame_index) => Ok(
                    WallpaperEntry::SequenceFrame {
                        path,
                        sequence_name: folder_name_of(path),
                        frame_index,
                    },
                ),
                None => Err(Misfit::Unnumbered),
            }
        } else {
            Err(Misfit::Misplaced)
        },
    }
}

/// Classification goes by depth and kind alone. Directly inside the
/// wallpaper directory a file is a static image and a directory a
/// sequence. Two levels below it a file whose name ends in a number that
/// fits is a frame with that number, in the sequence named after the
/// directory that holds it.
pub proof fn lemma_classification_by_depth(path: Seq<char>, kind: PathKind, root: Seq<char>)
    ensures
        kind == PathKind::Regular && is_directly_below(path, root) ==> classify_spec(
            path,
            kind,
            root,
        ) == Ok::<WallpaperEntry, Misfit>(WallpaperEntry::StaticImage { path }),
        kind == PathKind::Directory && is_directly_below(path, root) ==> classify_spec(
            path,
            kind,
            root,
        ) == Ok::<WallpaperEntry, Misfit>(
            WallpaperEntry::SequenceRoot { path, sequence_name: file_name_of(path) },
        ),
        kind == PathKind::Regular && is_two_below(path, root) ==> classify_spec(path, kind, root)
            == match frame_number_of(path) {
            Some(frame_index) => Ok::<WallpaperEntry, Misfit>(
                WallpaperEntry::SequenceFrame {
                    path,
                    sequence_name: folder_name_of(path),
                    frame_index,
                },
            ),
            None => Err::<WallpaperEntry, Misfit>(Misfit::Unnumbered),
        },
{
    lemma_not_both_depths(path, root);
}

/// The entry `name` of the wallpaper directory is a static image where it
/// is a file, and the sequence `name` where it is a directory.
pub proof fn lemma_entries_classify(root: Seq<char>, name: Seq<char>)
    requires
        !name.contains(SEPARATOR),
    ensures
        classify_spec(child_of(root, name), PathKind::Regular, root) == Ok::<WallpaperEntry, Misfit>(
            WallpaperEntry::StaticImage { path: child_of(root, name) },
        ),
        classify_spec(child_of(root, name), PathKind::Directory, root) == Ok::<
            WallpaperEntry,
            Misfit,
        >(WallpaperEntry::SequenceRoot { path: child_of(root, name), sequence_name: name }),
{
    lemma_child_parts(root, name);
}

/// The path that the engine builds for frame `index` of the sequence
/// `name` is classified as that frame, as long as the name does not itself
/// end in a digit.
pub proof fn lemma_frames_classify(root: Seq<char>, name: Seq<char>, index: nat)
    requires
        !name.contains(SEPARATOR),
        name.len() == 0 || !is_digit(name.last()),
        index <= u32::MAX,
    ensures
        classify_spec(frame_path_of(root, name, index), PathKind::Regular, root) == Ok::<
            WallpaperEntry,
            Misfit,
        >(
            WallpaperEntry::SequenceFrame {
                path: frame_path_of(root, name, index),
                sequence_name: name,
                frame_index: index as u32,
            },
        ),
{
    lemma_frame_path_parts(root, name, index);
    lemma_not_both_depths(frame_path_of(root, name, index), root);
}

/// What is known of a frame: the sequence it belongs to and its number.
#[derive(Debug)]
pub struct AnimatedInfo {
    animated_folder: String,
    animated_number: Option<u32>,
}

impl AnimatedInfo {
    /// What the path says of the frame that it names.
    fn new(path: &str) -> (info: Self)
        ensures
            info.animated_folder@ == folder_name_of(path@),
            info.animated_number == frame_number_of(path@),
    {
        let animated_folder = Self::update_animated_folder(path);
        let animated_number = Self::update_animated_number(path);
        AnimatedInfo { animated_folder, animated_number }
    }

    /// The name of the directory that holds the path.
    fn update_animated_folder(path: &str) -> (name: String)
        ensures
            name@ == folder_name_of(path@),
    {
        match parent(path) {
            Some(dir) => file_name(dir.as_str()),
            None => String::new(),
        }
    }

    /// The number that ends the stem of the path's file name.
    fn update_animated_number(path: &str) -> (number: Option<u32>)
        ensures
            number == frame_number_of(path@),
    {
        let name = file_name(path);
        let stem = file_stem(name.as_str());
        parse_trailing_number(stem.as_str())
    }
}

/// The path of a file: a static wallpaper or a frame of an animated one.
/// Which of the two is found on the first call of `is_animated` and kept.
#[derive(Debug)]
pub struct ImagePath {
    path: String,
    animated_info: Option<AnimatedInfo>,
    animated_info_cached: bool,
}

impl View for ImagePath {
    type V = Seq<char>;

    /// The path's text.
    closed spec fn view(&self) -> Seq<char> {
        self.path@
    }
}

impl ImagePath {
    #[verifier::type_invariant]
    spec fn inv(self) -> bool {
        self.animated_info matches Some(info) ==> {
            &&& self.animated_info_cached
            &&& info.animated_folder@ == folder_name_of(self.path@)
            &&& info.animated_number == frame_number_of(self.path@)
        }
    }

    /// Whether it has been decided if the image is a frame.
    pub closed spec fn is_cached(&self) -> bool {
        self.animated_info_cached || self.animated_info is Some
    }

    /// Whether the image was found to be a frame.
    pub closed spec fn is_frame(&self) -> bool {
        self.animated_info is Some
    }

    /// What `is_animated` answers for this image under the wallpaper
    /// directory `root`: what was found before, or else whether the path
    /// lies two levels below `root`.
    pub open spec fn animated_under(&self, root: Seq<char>) -> bool {
        if self.is_cached() {
            self.is_frame()
        } else {
            is_two_below(self@, root)
        }
    }

    /// Only an image that was asked can have been found to be a frame.
    pub proof fn lemma_frame_is_cached(&self)
        ensures
            self.is_frame() ==> self.is_cached(),
    {
    }

    /// The image at `path`, as long as a file was found there.
    pub fn new(path: String, kind: PathKind) -> (r: Option<Self>)
        ensures
            r is Some <==> kind == PathKind::Regular,
            r matches Some(image) ==> image@ == path@ && !image.is_cached() && !image.is_frame(),
    {
        match kind {
            PathKind::Regular => Some(
                ImagePath { path, animated_info: None, animated_info_cached: false },
            ),
            _ => None,
        }
    }

    /// The image at `path`, taken on trust: nothing was looked for there.
    pub fn unprobed(path: String) -> (image: Self)
        ensures
            image@ == path@,
            !image.is_cached(),
            !image.is_frame(),
    {
        ImagePath { path, animated_info: None, animated_info_cached: false }
    }

    /// Whether the image is a frame of an animated wallpaper: a file in a
    /// directory that is itself directly inside the wallpaper directory.
    /// The first answer is kept and given again from then on.
    pub fn is_animated(&mut self, settings: &Settings) -> (r: bool)
        ensures
            r == old(self).animated_under(settings.wallpaper_dir@),
            final(self)@ == old(self)@,
            final(self).is_cached(),
            final(self).is_frame() == r,
    {
        proof {
            use_type_invariant(&*self);
        }
        if self.animated_info_cached {
            return self.animated_info.is_some();
        }
        let is_animated = self.check_if_animated(settings);
        self.animated_info_cached = true;
        if is_animated {
            self.update_animated_info();
        }
        is_animated
    }

    /// Whether the path lies two levels below the wallpaper directory.
    fn check_if_animated(&self, settings: &Settings) -> (r: bool)
        ensures
            r == is_two_below(self@, settings.wallpaper_dir@),
    {
        match parent(self.path.as_str()) {
            Some(dir) => match parent(dir.as_str()) {
                Some(above) => above == settings.wallpaper_dir,
                None => false,
            },
            None => false,
        }
    }

    fn update_animated_info(&mut self)
        requires
            old(self).animated_info_cached,
        ensures
            final(self)@ == old(self)@,
            final(self).is_cached(),
            final(self).is_frame(),
    {
        let info = AnimatedInfo::new(self.path.as_str());
        self.animated_info = Some(info);
    }

    /// The name of the sequence's directory. Only a frame has one.
    pub fn get_animated_wallpaper_name(&self) -> (name: String)
        requires
            self.is_frame(),
        ensures
            name@ == folder_name_of(self@),
    {
        proof {
            use_type_invariant(self);
        }
        match &self.animated_info {
            Some(info) => info.animated_folder.clone(),
            None => String::new(),
        }
    }

    /// The frame's number: `None` for an image that is no frame, or was not
    /// asked yet, or whose name does not end in a number.
    pub fn get_animated_number(&self) -> (r: Option<u32>)
        ensures
            r == if self.is_frame() {
                frame_number_of(self@)
            } else {
                None
            },
    {
        proof {
            use_type_invariant(self);
        }
        match &self.animated_info {
            Some(info) => info.animated_number,
            None => None,
        }
    }

    /// The path's text.
    pub fn path(&self) -> (r: &str)
        ensures
            r@ == self@,
    {
        self.path.as_str()
    }

    /// The path's text.
    pub fn to_string(&self) -> (r: String)
        ensures
            r@ == self@,
    {
        self.path.clone()
    }

    /// The seconds to wait before the wallpaper that follows this one.
    ///
    /// A static image stays for the whole of `settings.sleep_time`. A frame
    /// stays for that time divided by the number of entries in its
    /// sequence's directory, rounded down, so that the whole sequence takes
    /// about as long as one static image; with more entries than seconds
    /// that is 0, and the next frame is due at once. `entries` is that
    /// number as the caller found it, `None` where the directory could not
    /// be read.
    pub fn get_sleep_time(&mut self, settings: &Settings, entries: Option<usize>) -> (r: Result<
        u64,
        TimerError,
    >)
        ensures
            final(self)@ == old(self)@,
            final(self).is_cached(),
            final(self).is_frame() == old(self).animated_under(settings.wallpaper_dir@),
            match sleep_time_spec(
                old(self).animated_under(settings.wallpaper_dir@),
                settings.sleep_time,
                entries,
            ) {
                Ok(seconds) => r matches Ok(s) && s == seconds,
                Err(text) => r matches Err(e) && e.message@ == text,
            },
    {
        if self.is_animated(settings) {
            match entries {
                Some(count) => {
                    if count == 0 {
                        Err(TimerError::new(EMPTY_SEQUENCE_TEXT))
                    } else {
                        Ok(settings.sleep_time / (count as u64))
                    }
                },
                None => Err(TimerError::new(UNREADABLE_SEQUENCE_TEXT)),
            }
        } else {
            Ok(settings.sleep_time)
        }
    }
}

impl From<String> for ImagePath {
    /// The image at `path`, taken on trust, as `ImagePath::unprobed` gives
    /// it.
    fn from(path: String) -> (image: Self) {
        ImagePath { path, animated_info: None, animated_info_cached: false }
    }
}

impl vstd::std_specs::convert::FromSpecImpl<String> for ImagePath {
    open spec fn obeys_from_spec() -> bool {
        true
    }

    closed spec fn from_spec(path: String) -> Self {
        ImagePath { path, animated_info: None, animated_info_cached: false }
    }
}

/// The image that a path converts into holds the path's text, and was not
/// asked yet whether it is a frame.
pub proof fn lemma_image_from_path(path: String)
    ensures
        <ImagePath as vstd::std_specs::convert::FromSpec<String>>::from_spec(path)@ == path@,
        !<ImagePath as vstd::std_specs::convert::FromSpec<String>>::from_spec(path).is_cached(),
        !<ImagePath as vstd::std_specs::convert::FromSpec<String>>::from_spec(path).is_frame(),
{
}

/// The seconds that a wallpaper stays: all of `base` for a static image,
/// `base` divided by the number of entries for a frame. Where that number
/// is unknown or 0 there is no such time, but the text of an error.
pub open spec fn sleep_time_spec(animated: bool, base: u64, entries: Option<usize>) -> Result<
    u64,
    Seq<char>,
> {
    if !animated {
        Ok(base)
    } else {
        match entries {
            Some(count) => if count == 0 {
                Err(EMPTY_SEQUENCE_TEXT@)
            } else {
                Ok((base as int / count as int) as u64)
            },
            None => Err(UNREADABLE_SEQUENCE_TEXT@),
        }
    }
}

/// A sequence takes as long as one static image, but for a remainder of
/// less than one second for each frame: the frames' times together do not
/// exceed the whole time.
pub proof fn lemma_sequence_fills_the_time(base: u64, count: usize)
    requires
        count > 0,
    ensures
        sleep_time_spec(true, base, Some(count)) matches Ok(seconds) && seconds * count <= base
            && base - seconds * count < count,
{
    let seconds = base as int / count as int;
    assert(0 <= seconds <= base && seconds * count <= base && base - seconds * count < count)
        by (nonlinear_arith)
        requires
            seconds == base as int / count as int,
            count > 0,
            base >= 0,
    ;
}

pub const UNREADABLE_SEQUENCE_TEXT: &'static str =
    "failed to open the animated wallpaper directory, it appears to be missing";

pub const EMPTY_SEQUENCE_TEXT: &'static str = "the animated wallpaper directory is empty";

pub const MISSING_TEXT: &'static str = "the path does not exist";

pub const MISPLACED_TEXT: &'static str = "the path is no entry of the wallpaper directory";

pub const UNNUMBERED_TEXT: &'static str = "failed to parse animated number";

/// The path of a directory: an animated wallpaper not yet entered.
#[derive(Debug)]
pub struct AnimtaedFolder {
    path: String,
    name: String,
}

impl View for AnimtaedFolder {
    type V = Seq<char>;

    /// The path's text.
    closed spec fn view(&self) -> Seq<char> {
        self.path@
    }
}

impl AnimtaedFolder {
    #[verifier::type_invariant]
    spec fn inv(self) -> bool {
        self.name@ == file_name_of(self.path@)
    }

    /// The directory at `path`, named by the path's last component.
    pub fn new(path: String) -> (folder: Self)
        ensures
            folder@ == path@,
    {
        let name = file_name(path.as_str());
        AnimtaedFolder { path, name }
    }

    /// The path's text.
    pub fn path(&self) -> (r: &str)
        ensures
            r@ == self@,
    {
        self.path.as_str()
    }

    /// The directory's name, which is the sequence's.
    pub fn name(&self) -> (r: &str)
        ensures
            r@ == file_name_of(self@),
    {
        proof {
            use_type_invariant(self);
        }
        self.name.as_str()
    }

    /// The path's text.
    pub fn to_string(&self) -> (r: String)
        ensures
            r@ == self@,
    {
        self.path.clone()
    }
}

/// A path that exists: a file or a directory.
#[derive(Debug)]
pub enum File {
    Image(ImagePath),
    Folder(AnimtaedFolder),
}

impl View for File {
    type V = Seq<char>;

    /// The path's text.
    open spec fn view(&self) -> Seq<char> {
        match *self {
            File::Image(image) => image@,
            File::Folder(folder) => folder@,
        }
    }
}

impl File {
    /// What `is_animated` answers under the wallpaper directory `root`: for
    /// a file, what `ImagePath::is_animated` does; for a directory, whether
    /// it lies directly inside `root`.
    pub open spec fn animated_under(&self, root: Seq<char>) -> bool {
        match *self {
            File::Image(image) => image.animated_under(root),
            File::Folder(folder) => is_directly_below(folder@, root),
        }
    }

    /// Whether the path can be advanced as a sequence: a directory, or a
    /// file that was found to be a frame.
    pub open spec fn is_sequence(&self) -> bool {
        match *self {
            File::Image(image) => image.is_frame(),
            File::Folder(_) => true,
        }
    }

    /// The name of the sequence that the path belongs to: a directory's own
    /// name, and for a file the name of the directory that holds it.
    pub open spec fn sequence_name(&self) -> Seq<char> {
        match *self {
            File::Image(image) => folder_name_of(image@),
            File::Folder(folder) => file_name_of(folder@),
        }
    }

    /// The number of the frame that follows: 1 for a directory, and for a
    /// file the number after its own, where its name ends in one.
    pub open spec fn next_index(&self) -> Option<nat> {
        match *self {
            File::Image(image) => match frame_number_of(image@) {
                Some(number) => Some((number + 1) as nat),
                None => None,
            },
            File::Folder(_) => Some(1),
        }
    }

    /// What the path was found to be. `None` for a file that was not asked
    /// yet, and for one in a frame's place without a frame's number.
    pub open spec fn entry(&self) -> Option<WallpaperEntry> {
        match *self {
            File::Image(image) => if !image.is_cached() {
                None
            } else if image.is_frame() {
                match frame_number_of(image@) {
                    Some(frame_index) => Some(
                        WallpaperEntry::SequenceFrame {
                            path: image@,
                            sequence_name: folder_name_of(image@),
                            frame_index,
                        },
                    ),
                    None => None,
                }
            } else {
                Some(WallpaperEntry::StaticImage { path: image@ })
            },
            File::Folder(folder) => Some(
                WallpaperEntry::SequenceRoot { path: folder@, sequence_name: file_name_of(folder@) },
            ),
        }
    }

    /// The file or directory at `path`, as long as something was found
    /// there.
    pub fn new(path: String, kind: PathKind) -> (r: Option<Self>)
        ensures
            match kind {
                PathKind::Missing => r is None,
                PathKind::Regular => r matches Some(File::Image(image)) && image@ == path@
                    && !image.is_cached() && !image.is_frame(),
                PathKind::Directory => r matches Some(File::Folder(folder)) && folder@ == path@,
            },
    {
        match kind {
            PathKind::Missing => None,
            PathKind::Directory => Some(File::Folder(AnimtaedFolder::new(path))),
            PathKind::Regular => match ImagePath::new(path, kind) {
                Some(image) => Some(File::Image(image)),
                None => None,
            },
        }
    }

    /// Whether the path is part of an animated wallpaper: a frame, or a
    /// sequence's directory directly inside the wallpaper directory.
    pub fn is_animated(&mut self, settings: &Settings) -> (r: bool)
        ensures
            r == old(self).animated_under(settings.wallpaper_dir@),
            final(self)@ == old(self)@,
            match *final(self) {
                File::Image(image) => *old(self) is Image && image.is_cached() && image.is_frame()
                    == r,
                File::Folder(folder) => *old(self) == *final(self),
            },
    {
        match self {
            File::Image(image) => image.is_animated(settings),
            File::Folder(folder) => match parent(folder.path()) {
                Some(dir) => dir == settings.wallpaper_dir,
                None => false,
            },
        }
    }

    /// The name of the sequence. Only a directory or a frame has one.
    pub fn get_animated_wallpaper_name(&self) -> (name: String)
        requires
            self.is_sequence(),
        ensures
            name@ == self.sequence_name(),
    {
        match self {
            File::Image(image) => image.get_animated_wallpaper_name(),
            File::Folder(folder) => folder.name().to_owned(),
        }
    }

    /// The path's text.
    pub fn to_string(&self) -> (r: String)
        ensures
            r@ == self@,
    {
        match self {
            File::Image(image) => image.to_string(),
            File::Folder(folder) => folder.to_string(),
        }
    }
}

/// Classifies `path`, at which `kind` was found, against the wallpaper
/// directory of `settings`.
///
/// One level below the wallpaper directory a file is a static image and a
/// directory a sequence; two levels below it a file is a frame, numbered
/// by the digits that end its name before the extension. Nothing else is a
/// wallpaper: a missing or misplaced path is a `FileError`, a frame without
/// a number that fits `u32` a `ParsingError`.
pub fn classify(path: &str, kind: PathKind, settings: &Settings) -> (r: Result<
    File,
    WallshiftError,
>)
    ensures
        match classify_spec(path@, kind, settings.wallpaper_dir@) {
            Ok(entry) => r matches Ok(file) && file@ == path@ && file.entry() == Some(entry),
            Err(Misfit::Missing) => r matches Err(WallshiftError::File { source })
                && source.message@ == MISSING_TEXT@,
            Err(Misfit::Misplaced) => r matches Err(WallshiftError::File { source })
                && source.message@ == MISPLACED_TEXT@,
            Err(Misfit::Unnumbered) => r matches Err(WallshiftError::Parsing { source })
                && source.message@ == UNNUMBERED_TEXT@,
        },
{
    proof {
        lemma_not_both_depths(path@, settings.wallpaper_dir@);
    }
    match File::new(path.to_owned(), kind) {
        None => Err(WallshiftError::File { source: FileError::new(MISSING_TEXT) }),
        Some(mut file) => {
            let animated = file.is_animated(settings);
            match file {
                File::Folder(folder) => {
                    if animated {
                        Ok(File::Folder(folder))
                    } else {
                        Err(WallshiftError::File { source: FileError::new(MISPLACED_TEXT) })
                    }
                },
                File::Image(image) => {
                    if animated {
                        match image.get_animated_number() {
                            Some(_) => Ok(File::Image(image)),
                            None => Err(
                                WallshiftError::Parsing {
                                    source: ParsingError::new(UNNUMBERED_TEXT),
                                },
                            ),
                        }
                    } else {
                        let directly = match parent(image.path()) {
                            Some(dir) => dir == settings.wallpaper_dir,
                            None => false,
                        };
                        if directly {
                            Ok(File::Image(image))
                        } else {
                            Err(WallshiftError::File { source: FileError::new(MISPLACED_TEXT) })
                        }
                    }
                },
            }
        },
    }
}

} // verus!
