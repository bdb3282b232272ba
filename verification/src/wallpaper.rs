//! The selection engine: which wallpaper comes next.
//!
//! The caller lists the wallpaper directory and says what is shown now;
//! the engine answers with the image to show. A sequence that is running is
//! advanced frame by frame. When it has run out, or none is running, an
//! entry is drawn at random from those that are not hidden, if possible not
//! the one that is shown now. A sequence that is drawn is entered at its
//! first frame.

use vstd::prelude::*;
use vstd::string::*;
use rand::Rng;
use crate::configuration::Settings;
use crate::error::{FileError, ParsingError, SelectionError, WallshiftError};
use crate::path::{
    folder_name_of, is_directly_below, is_two_below, lemma_not_both_depths, AnimtaedFolder, File,
    ImagePath, PathKind, UNNUMBERED_TEXT, UNREADABLE_SEQUENCE_TEXT,
};
use crate::pathname::{
    child, child_of, file_name_of, frame_number_of, frame_path, frame_path_of, has_separator,
    is_digit, is_hidden, is_hidden_name, lemma_child_parts, lemma_frame_path_depth,
    lemma_frame_path_is_injective, lemma_frame_path_parts, same_text, SEPARATOR,
};

verus! {

/// What an entry of the wallpaper directory is.
#[derive(Debug, Clone, Copy)]
pub enum EntryKind {
    /// A file.
    Image,
    /// A directory, with the number of entries it holds, or `None` where it
    /// could not be read.
    Sequence { entries: Option<usize> },
}

/// One entry of the wallpaper directory, as the caller found it.
#[derive(Debug)]
pub struct DirectoryEntry {
    name: String,
    kind: EntryKind,
}

/// An entry's name and kind.
pub struct EntryView {
    pub name: Seq<char>,
    pub kind: EntryKind,
}

impl View for DirectoryEntry {
    type V = EntryView;

    closed spec fn view(&self) -> EntryView {
        EntryView { name: self.name@, kind: self.kind }
    }
}

impl DirectoryEntry {
    #[verifier::type_invariant]
    spec fn inv(self) -> bool {
        !self.name@.contains(SEPARATOR)
    }

    /// An entry's name is one component of a path: it holds no separator.
    pub open spec fn well_formed(&self) -> bool {
        !self@.name.contains(SEPARATOR)
    }

    /// The entry called `name`; `None` where `name` holds a separator and
    /// so is no entry's name.
    pub fn new(name: String, kind: EntryKind) -> (r: Option<Self>)
        ensures
            r is Some <==> !name@.contains(SEPARATOR),
            r matches Some(entry) ==> entry@.name == name@ && entry@.kind == kind
                && entry.well_formed(),
    {
        if has_separator(name.as_str()) {
            None
        } else {
            Some(DirectoryEntry { name, kind })
        }
    }

    /// The entry's name.
    pub fn name(&self) -> (r: &str)
        ensures
            r@ == self@.name,
            self.well_formed(),
    {
        proof {
            use_type_invariant(self);
        }
        self.name.as_str()
    }

    /// The entry's kind.
    pub fn kind(&self) -> (r: EntryKind)
        ensures
            r == self@.kind,
    {
        self.kind
    }
}

/// Whether the entry takes part in draws: hidden entries do not.
pub open spec fn is_visible(entry: EntryView) -> bool {
    !is_hidden_name(entry.name)
}

/// Whether the entry takes part in a draw that leaves out the path
/// `exclude`.
pub open spec fn is_eligible(entry: EntryView, root: Seq<char>, exclude: Option<Seq<char>>) -> bool {
    is_visible(entry) && (exclude matches Some(path) ==> child_of(root, entry.name) != path)
}

/// Whether the directory holds nothing to draw from.
pub open spec fn pool_is_empty(listing: Seq<DirectoryEntry>) -> bool {
    forall|i: int| 0 <= i < listing.len() ==> !is_visible(#[trigger] listing[i]@)
}

/// Whether leaving out `exclude` leaves nothing to draw from.
pub open spec fn none_eligible(
    listing: Seq<DirectoryEntry>,
    root: Seq<char>,
    exclude: Option<Seq<char>>,
) -> bool {
    forall|i: int| 0 <= i < listing.len() ==> !is_eligible(#[trigger] listing[i]@, root, exclude)
}

/// Whether entry `i` can come out of a draw that leaves out `exclude`: it
/// is not hidden, and its path is not `exclude`, unless that would leave
/// nothing, in which case every entry that is not hidden can come out.
pub open spec fn can_be_drawn(
    listing: Seq<DirectoryEntry>,
    root: Seq<char>,
    exclude: Option<Seq<char>>,
    i: int,
) -> bool {
    &&& 0 <= i < listing.len()
    &&& is_visible(listing[i]@)
    &&& is_eligible(listing[i]@, root, exclude) || none_eligible(listing, root, exclude)
}

/// The indices of the entries that a draw leaving out `exclude` chooses
/// among, in ascending order.
pub fn candidates(settings: &Settings, listing: &Vec<DirectoryEntry>, exclude: Option<&str>) -> (pool:
    Vec<usize>)
    ensures
        forall|k: int, l: int| 0 <= k < l < pool.len() ==> pool[k] < pool[l],
        forall|k: int|
            0 <= k < pool.len() ==> can_be_drawn(
                listing@,
                settings.wallpaper_dir@,
                text_of(exclude),
                #[trigger] pool[k] as int,
            ),
        forall|i: int|
            can_be_drawn(listing@, settings.wallpaper_dir@, text_of(exclude), i)
                ==> pool@.contains(i as usize),
        pool.len() == 0 <==> pool_is_empty(listing@),
{
    let ghost root = settings.wallpaper_dir@;
    let ghost out = text_of(exclude);
    let mut visible: Vec<usize> = Vec::new();
    let mut eligible: Vec<usize> = Vec::new();
    let mut i: usize = 0;
    while i < listing.len()
        invariant
            i <= listing.len(),
            root == settings.wallpaper_dir@,
            out == text_of(exclude),
            forall|k: int, l: int| 0 <= k < l < visible.len() ==> visible[k] < visible[l],
            forall|k: int, l: int| 0 <= k < l < eligible.len() ==> eligible[k] < eligible[l],
            forall|k: int|
                0 <= k < visible.len() ==> visible[k] < i && is_visible(
                    listing@[#[trigger] visible[k] as int]@,
                ),
            forall|k: int|
                0 <= k < eligible.len() ==> eligible[k] < i && is_eligible(
                    listing@[#[trigger] eligible[k] as int]@,
                    root,
                    out,
                ),
            forall|j: int|
                0 <= j < i && is_visible(#[trigger] listing@[j]@) ==> visible@.contains(j as usize),
            forall|j: int|
                0 <= j < i && is_eligible(#[trigger] listing@[j]@, root, out)
                    ==> eligible@.contains(j as usize),
        decreases listing.len() - i,
    {
        let entry = &listing[i];
        if !is_hidden(entry.name()) {
            let ghost before = visible@;
            visible.push(i);
            assert forall|j: int|
                0 <= j < i + 1 && is_visible(#[trigger] listing@[j]@) implies visible@.contains(
                j as usize,
            ) by {
                if j < i {
                    let k = choose|k: int| 0 <= k < before.len() && before[k] == j as usize;
                    assert(visible@[k] == j as usize);
                } else {
                    assert(visible@[visible.len() - 1] == j as usize);
                }
            }
            let keep = match exclude {
                Some(path) => {
                    let own = child(settings.wallpaper_dir.as_str(), entry.name());
                    own != path.to_owned()
                },
                None => true,
            };
            if keep {
                let ghost before = eligible@;
                eligible.push(i);
                assert forall|j: int|
                    0 <= j < i + 1 && is_eligible(
                        #[trigger] listing@[j]@,
                        root,
                        out,
                    ) implies eligible@.contains(j as usize) by {
                    if j < i {
                        let k = choose|k: int| 0 <= k < before.len() && before[k] == j as usize;
                        assert(eligible@[k] == j as usize);
                    } else {
                        assert(eligible@[eligible.len() - 1] == j as usize);
                    }
                }
            }
        }
        i = i + 1;
    }
    if eligible.len() == 0 {
        assert(none_eligible(listing@, root, out)) by {
            assert forall|j: int| 0 <= j < listing@.len() implies !is_eligible(
                #[trigger] listing@[j]@,
                root,
                out,
            ) by {
                if is_eligible(listing@[j]@, root, out) {
                    assert(eligible@.contains(j as usize));
                }
            }
        }
        assert(visible.len() == 0 <==> pool_is_empty(listing@)) by {
            if visible.len() > 0 {
                assert(is_visible(listing@[visible[0] as int]@));
            }
        }
        visible
    } else {
        assert(is_eligible(listing@[eligible[0] as int]@, root, out));
        eligible
    }
}

/// The text that an optional string holds.
pub open spec fn text_of(text: Option<&str>) -> Option<Seq<char>> {
    match text {
        Some(t) => Some(t@),
        None => None,
    }
}

/// What the engine arrives at when it looks at one entry or advances one
/// sequence.
pub enum Outcome {
    /// The image at this path is shown.
    Show(Seq<char>),
    /// The sequence has no further frame: another entry is to be drawn.
    Exhausted,
    /// The sequence's directory is not listed, or could not be read.
    Unreadable,
    /// The frame's name does not end in a number.
    Unnumbered,
}

/// Whether the entry is the directory of the sequence `name`.
pub open spec fn is_sequence_named(entry: EntryView, name: Seq<char>) -> bool {
    entry.kind is Sequence && entry.name == name
}

/// The index of the first entry from `from` on that is the directory of
/// the sequence `name`.
pub open spec fn find_sequence(listing: Seq<DirectoryEntry>, name: Seq<char>, from: int) -> Option<
    int,
>
    decreases listing.len() - from,
{
    if from < 0 || from >= listing.len() {
        None
    } else if is_sequence_named(listing[from]@, name) {
        Some(from)
    } else {
        find_sequence(listing, name, from + 1)
    }
}

/// The number of entries in the directory of the sequence `name`; `None`
/// where the directory is not listed or could not be read.
pub open spec fn sequence_entries(listing: Seq<DirectoryEntry>, name: Seq<char>) -> Option<usize> {
    match find_sequence(listing, name, 0) {
        Some(k) => match listing[k]@.kind {
            EntryKind::Sequence { entries } => entries,
            EntryKind::Image => None,
        },
        None => None,
    }
}

/// What advancing the sequence `name` to the frame `next` arrives at: the
/// frame's path, as long as the sequence's directory holds at least `next`
/// entries. `next` is `None` where the current frame has no number.
pub open spec fn advance_spec(
    root: Seq<char>,
    listing: Seq<DirectoryEntry>,
    name: Seq<char>,
    next: Option<nat>,
) -> Outcome {
    match sequence_entries(listing, name) {
        None => Outcome::Unreadable,
        Some(max) => match next {
            None => Outcome::Unnumbered,
            Some(index) => if index > max || index > u32::MAX {
                Outcome::Exhausted
            } else {
                Outcome::Show(frame_path_of(root, name, index))
            },
        },
    }
}

/// What drawing entry `i` arrives at: an image is shown as it is, a
/// sequence is entered at its first frame.
pub open spec fn enter_spec(root: Seq<char>, listing: Seq<DirectoryEntry>, i: int) -> Outcome {
    match listing[i]@.kind {
        EntryKind::Image => Outcome::Show(child_of(root, listing[i]@.name)),
        EntryKind::Sequence { .. } => advance_spec(root, listing, listing[i]@.name, Some(1)),
    }
}

/// The number of entries in the directory of the sequence `name`.
pub fn count_entries(listing: &Vec<DirectoryEntry>, name: &str) -> (r: Option<usize>)
    ensures
        r == sequence_entries(listing@, name@),
{
    let mut i: usize = 0;
    while i < listing.len()
        invariant
            i <= listing.len(),
            find_sequence(listing@, name@, 0) == find_sequence(listing@, name@, i as int),
        decreases listing.len() - i,
    {
        let entry = &listing[i];
        match entry.kind() {
            EntryKind::Sequence { entries } => {
                if same_text(entry.name(), name) {
                    return entries;
                }
            },
            EntryKind::Image => {},
        }
        i = i + 1;
    }
    None
}

/// Returns the next frame of the sequence that `path` belongs to: the
/// first for a directory, the one after it for a frame. `None` means that
/// the sequence is exhausted: it holds fewer entries than the next frame's
/// number.
///
/// The frame's path is built, not looked up:
/// `<wallpaper_dir>/<name>/<name><number>.png`.
pub fn get_next_animated_wallpaper(
    settings: &Settings,
    path: &File,
    listing: &Vec<DirectoryEntry>,
) -> (r: Result<Option<ImagePath>, WallshiftError>)
    requires
        path.is_sequence(),
    ensures
        match advance_spec(
            settings.wallpaper_dir@,
            listing@,
            path.sequence_name(),
            path.next_index(),
        ) {
            Outcome::Show(frame) => r matches Ok(Some(image)) && image@ == frame
                && !image.is_cached(),
            Outcome::Exhausted => r matches Ok(None),
            Outcome::Unreadable => r matches Err(WallshiftError::File { source })
                && source.message@ == UNREADABLE_SEQUENCE_TEXT@,
            Outcome::Unnumbered => r matches Err(WallshiftError::Parsing { source })
                && source.message@ == UNNUMBERED_TEXT@,
        },
{
    let name = path.get_animated_wallpaper_name();
    let max: usize = match count_entries(listing, name.as_str()) {
        Some(count) => count,
        None => {
            return Err(
                WallshiftError::File { source: FileError::new(UNREADABLE_SEQUENCE_TEXT) },
            );
        },
    };
    let next_index: u32 = match path {
        File::Image(image) => match image.get_animated_number() {
            Some(number) => {
                if number == u32::MAX || (number as u64) + 1 > max as u64 {
                    return Ok(None);
                }
                number + 1
            },
            None => {
                return Err(
                    WallshiftError::Parsing { source: ParsingError::new(UNNUMBERED_TEXT) },
                );
            },
        },
        File::Folder(_) => {
            if max == 0 {
                return Ok(None);
            }
            1
        },
    };
    let frame = frame_path(settings.wallpaper_dir.as_str(), name.as_str(), next_index);
    Ok(Some(ImagePath::unprobed(frame)))
}

/// `rand::Rng::random_range` on the generator of the current thread, for
/// the range from 0 up to and without `len`: some index below `len`. The
/// range must not be empty.
#[verifier::external_body]
fn random_index(len: usize) -> (index: usize)
    requires
        len > 0,
    ensures
        index < len,
{
    rand::rng().random_range(0..len)
}

/// How many entries are drawn in a row, each a sequence without a frame to
/// show, before the engine gives up.
pub const MAX_DRAWS: usize = 1000;

/// The path of entry `i`, as a file or a directory.
pub fn wallpaper_at(settings: &Settings, listing: &Vec<DirectoryEntry>, i: usize) -> (file: File)
    requires
        i < listing.len(),
    ensures
        file@ == child_of(settings.wallpaper_dir@, listing[i as int]@.name),
        match listing[i as int]@.kind {
            EntryKind::Image => file matches File::Image(image) && !image.is_cached(),
            EntryKind::Sequence { .. } => file is Folder,
        },
{
    let entry = &listing[i];
    let path = child(settings.wallpaper_dir.as_str(), entry.name());
    match entry.kind() {
        EntryKind::Image => File::Image(ImagePath::unprobed(path)),
        EntryKind::Sequence { .. } => File::Folder(AnimtaedFolder::new(path)),
    }
}

/// What drawing entry `i` arrives at: an image is shown as it is, and a
/// sequence is entered at its first frame. `None` means that the sequence
/// has no frame, so that another entry is to be drawn.
pub fn enter(settings: &Settings, listing: &Vec<DirectoryEntry>, i: usize) -> (r: Result<
    Option<ImagePath>,
    WallshiftError,
>)
    requires
        i < listing.len(),
    ensures
        match enter_spec(settings.wallpaper_dir@, listing@, i as int) {
            Outcome::Show(path) => r matches Ok(Some(image)) && image@ == path,
            Outcome::Exhausted => r matches Ok(None),
            Outcome::Unreadable => r matches Err(WallshiftError::File { source })
                && source.message@ == UNREADABLE_SEQUENCE_TEXT@,
            Outcome::Unnumbered => r matches Err(WallshiftError::Parsing { source })
                && source.message@ == UNNUMBERED_TEXT@,
        },
{
    let entry = &listing[i];
    let name = entry.name();
    proof {
        lemma_child_parts(settings.wallpaper_dir@, name@);
    }
    let file = wallpaper_at(settings, listing, i);
    match file {
        File::Image(mut image) => {
            proof {
                lemma_not_both_depths(image@, settings.wallpaper_dir@);
            }
            let animated = image.is_animated(settings);
            assert(!animated);
            Ok(Some(image))
        },
        File::Folder(folder) => get_next_animated_wallpaper(
            settings,
            &File::Folder(folder),
            listing,
        ),
    }
}

/// Whether entry `i` is one that is not hidden.
pub open spec fn is_visible_at(listing: Seq<DirectoryEntry>, i: int) -> bool {
    0 <= i < listing.len() && is_visible(listing[i]@)
}

/// Whether `r` is the error of an empty pool.
pub open spec fn is_empty_pool_error(r: Result<ImagePath, WallshiftError>) -> bool {
    r matches Err(WallshiftError::Selection { source: SelectionError::EmptyPool })
}

/// Whether `r` can be what fresh draws from the whole pool arrive at.
///
/// An image that is shown is what some entry that is not hidden leads to.
/// An empty pool is an error, and the only ground for that error. Giving up
/// takes a sequence without frames in the pool, and a `FileError` one that
/// could not be read. Where every entry that is not hidden has something to
/// show, an image is shown.
pub open spec fn comes_of_fresh_draws(
    root: Seq<char>,
    listing: Seq<DirectoryEntry>,
    r: Result<ImagePath, WallshiftError>,
) -> bool {
    &&& pool_is_empty(listing) <==> is_empty_pool_error(r)
    &&& match r {
        Ok(image) => exists|i: int|
            is_visible_at(listing, i) && #[trigger] enter_spec(root, listing, i) == Outcome::Show(
                image@,
            ),
        Err(WallshiftError::Selection { source: SelectionError::EmptyPool }) => true,
        Err(WallshiftError::Selection { source: SelectionError::RetriesExhausted }) => exists|
            i: int,
        |
            is_visible_at(listing, i) && #[trigger] enter_spec(root, listing, i)
                is Exhausted,
        Err(WallshiftError::File { source }) => source.message@ == UNREADABLE_SEQUENCE_TEXT@
            && exists|i: int|
            is_visible_at(listing, i) && #[trigger] enter_spec(root, listing, i)
                is Unreadable,
        Err(_) => false,
    }
}

/// Draws from all entries that are not hidden until one has something to
/// show, `MAX_DRAWS` times at most.
pub fn draw_fresh(settings: &Settings, listing: &Vec<DirectoryEntry>) -> (r: Result<
    ImagePath,
    WallshiftError,
>)
    ensures
        comes_of_fresh_draws(settings.wallpaper_dir@, listing@, r),
        !pool_is_empty(listing@) && (forall|i: int|
            is_visible_at(listing@, i) ==> #[trigger] enter_spec(
                settings.wallpaper_dir@,
                listing@,
                i,
            ) is Show) ==> r is Ok,
{
    let ghost root = settings.wallpaper_dir@;
    let pool = candidates(settings, listing, None);
    if pool.len() == 0 {
        return Err(WallshiftError::Selection { source: SelectionError::EmptyPool });
    }
    let mut draws: usize = 0;
    let ghost mut witness: int = 0;
    while draws < MAX_DRAWS
        invariant
            root == settings.wallpaper_dir@,
            pool.len() > 0,
            !pool_is_empty(listing@),
            forall|k: int|
                0 <= k < pool.len() ==> can_be_drawn(
                    listing@,
                    root,
                    None,
                    #[trigger] pool[k] as int,
                ),
            draws > 0 ==> is_visible_at(listing@, witness) && enter_spec(root, listing@, witness)
                is Exhausted,
        decreases MAX_DRAWS - draws,
    {
        let k = random_index(pool.len());
        let i = pool[k];
        assert(can_be_drawn(listing@, root, None, pool[k as int] as int));
        match enter(settings, listing, i) {
            Ok(Some(image)) => {
                assert(is_visible_at(listing@, i as int) && enter_spec(root, listing@, i as int)
                    == Outcome::Show(image@));
                return Ok(image);
            },
            Ok(None) => {
                proof {
                    witness = i as int;
                }
            },
            Err(e) => {
                assert(is_visible_at(listing@, i as int) && enter_spec(root, listing@, i as int)
                    is Unreadable) by {
                    lemma_entering_has_a_number(root, listing@, i as int);
                }
                return Err(e);
            },
        }
        draws = draws + 1;
    }
    Err(WallshiftError::Selection { source: SelectionError::RetriesExhausted })
}

/// Entering an entry never fails for want of a number: the first frame's
/// number is 1.
pub proof fn lemma_entering_has_a_number(root: Seq<char>, listing: Seq<DirectoryEntry>, i: int)
    ensures
        !(enter_spec(root, listing, i) is Unnumbered),
{
}

/// Advances the sequence that `path` belongs to. Where it is exhausted,
/// falls back on fresh draws from the whole pool.
pub fn update_animated(settings: &Settings, path: &File, listing: &Vec<DirectoryEntry>) -> (r:
    Result<ImagePath, WallshiftError>)
    requires
        path.is_sequence(),
    ensures
        match advance_spec(
            settings.wallpaper_dir@,
            listing@,
            path.sequence_name(),
            path.next_index(),
        ) {
            Outcome::Show(frame) => r matches Ok(image) && image@ == frame,
            Outcome::Exhausted => {
                &&& comes_of_fresh_draws(settings.wallpaper_dir@, listing@, r)
                &&& (forall|i: int|
                    is_visible_at(listing@, i) ==> #[trigger] enter_spec(
                        settings.wallpaper_dir@,
                        listing@,
                        i,
                    ) is Show) && !pool_is_empty(listing@) ==> r is Ok
            },
            Outcome::Unreadable => r matches Err(WallshiftError::File { source })
                && source.message@ == UNREADABLE_SEQUENCE_TEXT@,
            Outcome::Unnumbered => r matches Err(WallshiftError::Parsing { source })
                && source.message@ == UNNUMBERED_TEXT@,
        },
{
    match get_next_animated_wallpaper(settings, path, listing) {
        Ok(Some(image)) => Ok(image),
        Ok(None) => draw_fresh(settings, listing),
        Err(e) => Err(e),
    }
}

/// Whether `file` is the path of `entry` inside `root`, of the entry's
/// kind, and not yet asked what it is.
pub open spec fn is_file_of(file: File, root: Seq<char>, entry: EntryView) -> bool {
    &&& file@ == child_of(root, entry.name)
    &&& match entry.kind {
        EntryKind::Image => file matches File::Image(image) && !image.is_cached(),
        EntryKind::Sequence { .. } => file is Folder,
    }
}

/// Draws one entry of the wallpaper directory at random: a file, or a
/// directory, which the caller then enters. Hidden entries are left out,
/// and so is the entry whose path is `current`, unless it is the only one.
/// Fails exactly where every entry is hidden or there is none.
pub fn get_random_wallpaper(
    settings: &Settings,
    current: Option<&str>,
    listing: &Vec<DirectoryEntry>,
) -> (r: Result<File, WallshiftError>)
    ensures
        pool_is_empty(listing@) <==> r is Err,
        r matches Err(e) ==> e matches WallshiftError::Selection {
            source: SelectionError::EmptyPool,
        },
        r matches Ok(file) ==> exists|i: int|
            #[trigger] can_be_drawn(listing@, settings.wallpaper_dir@, text_of(current), i)
                && is_file_of(file, settings.wallpaper_dir@, listing@[i]@),
{
    let pool = candidates(settings, listing, current);
    if pool.len() == 0 {
        return Err(WallshiftError::Selection { source: SelectionError::EmptyPool });
    }
    let k = random_index(pool.len());
    let i = pool[k];
    assert(can_be_drawn(listing@, settings.wallpaper_dir@, text_of(current), pool[k as int] as int));
    Ok(wallpaper_at(settings, listing, i))
}

/// Whether the wallpaper at `path`, where `kind` was found, is part of a
/// sequence that the engine goes on with: a file two levels below the
/// wallpaper directory, or a directory directly inside it.
pub open spec fn continues_sequence(path: Seq<char>, kind: PathKind, root: Seq<char>) -> bool {
    match kind {
        PathKind::Missing => false,
        PathKind::Regular => is_two_below(path, root),
        PathKind::Directory => is_directly_below(path, root),
    }
}

/// The name of the sequence that the wallpaper at `path` belongs to.
pub open spec fn sequence_name_at(path: Seq<char>, kind: PathKind) -> Seq<char> {
    match kind {
        PathKind::Directory => file_name_of(path),
        _ => folder_name_of(path),
    }
}

/// The number of the frame that follows the wallpaper at `path`.
pub open spec fn next_index_at(path: Seq<char>, kind: PathKind) -> Option<nat> {
    match kind {
        PathKind::Directory => Some(1),
        _ => match frame_number_of(path) {
            Some(number) => Some((number + 1) as nat),
            None => None,
        },
    }
}

/// The path that a draw leaves out: that of the current wallpaper, where
/// it still exists.
pub open spec fn exclusion_for(path: Seq<char>, kind: PathKind) -> Option<Seq<char>> {
    match kind {
        PathKind::Missing => None,
        _ => Some(path),
    }
}

/// Whether `r` is what the outcome of entering one entry asks for.
pub open spec fn settles(outcome: Outcome, r: Result<ImagePath, WallshiftError>) -> bool {
    match outcome {
        Outcome::Show(path) => r matches Ok(image) && image@ == path,
        Outcome::Unreadable => r matches Err(WallshiftError::File { source })
            && source.message@ == UNREADABLE_SEQUENCE_TEXT@,
        _ => false,
    }
}

/// Whether `r` is what some entry leads to that a draw leaving out
/// `exclude` can give.
pub open spec fn comes_of_first_draw(
    root: Seq<char>,
    listing: Seq<DirectoryEntry>,
    exclude: Option<Seq<char>>,
    r: Result<ImagePath, WallshiftError>,
) -> bool {
    exists|i: int|
        #[trigger] can_be_drawn(listing, root, exclude, i) && settles(
            enter_spec(root, listing, i),
            r,
        )
}

/// Whether `r` can be what a draw that leaves out `exclude` arrives at:
/// either what the entry drawn leads to, or, where that entry is a sequence
/// without frames, what fresh draws from the whole pool lead to.
pub open spec fn comes_of_draw(
    root: Seq<char>,
    listing: Seq<DirectoryEntry>,
    exclude: Option<Seq<char>>,
    r: Result<ImagePath, WallshiftError>,
) -> bool {
    ||| comes_of_first_draw(root, listing, exclude, r)
    ||| {
        &&& exists|i: int|
            #[trigger] can_be_drawn(listing, root, exclude, i) && enter_spec(root, listing, i)
                is Exhausted
        &&& comes_of_fresh_draws(root, listing, r)
    }
}

/// Whether every entry that is not hidden has something to show: it is an
/// image, or a sequence whose directory was read and is not empty.
pub open spec fn all_can_be_shown(root: Seq<char>, listing: Seq<DirectoryEntry>) -> bool {
    forall|i: int| is_visible_at(listing, i) ==> #[trigger] enter_spec(root, listing, i) is Show
}

/// Whether `r` can be the answer to "which wallpaper is next" where
/// `current`, at which `kind` was found, is shown now, and the wallpaper
/// directory `root` holds `listing`.
///
/// A pool without an entry that is not hidden is an error, and the only
/// ground for that error. Else a current wallpaper that is part of a
/// sequence decides: its next frame is shown, or it is exhausted and fresh
/// draws decide, or it cannot be advanced, which is an error. Without such
/// a current wallpaper a draw decides that leaves the current one out.
/// Where every entry that is not hidden has something to show, an image is
/// shown, and after a draw it is what the entry drawn leads to.
pub open spec fn is_next_wallpaper(
    root: Seq<char>,
    current: Seq<char>,
    kind: PathKind,
    listing: Seq<DirectoryEntry>,
    r: Result<ImagePath, WallshiftError>,
) -> bool {
    &&& pool_is_empty(listing) <==> is_empty_pool_error(r)
    &&& !pool_is_empty(listing) ==> if continues_sequence(current, kind, root) {
        match advance_spec(
            root,
            listing,
            sequence_name_at(current, kind),
            next_index_at(current, kind),
        ) {
            Outcome::Show(frame) => r matches Ok(image) && image@ == frame,
            Outcome::Exhausted => {
                &&& comes_of_fresh_draws(root, listing, r)
                &&& all_can_be_shown(root, listing) ==> r is Ok
            },
            Outcome::Unreadable => r matches Err(WallshiftError::File { source })
                && source.message@ == UNREADABLE_SEQUENCE_TEXT@,
            Outcome::Unnumbered => r matches Err(WallshiftError::Parsing { source })
                && source.message@ == UNNUMBERED_TEXT@,
        }
    } else {
        &&& comes_of_draw(root, listing, exclusion_for(current, kind), r)
        &&& all_can_be_shown(root, listing) ==> r is Ok && comes_of_first_draw(
            root,
            listing,
            exclusion_for(current, kind),
            r,
        )
    }
}

/// Gets the next wallpaper.
///
/// `current` is the path of the wallpaper that is shown now, `kind` what
/// was found at that path, and `listing` the entries of the wallpaper
/// directory. A pool without an entry that is not hidden is an error. Else
/// a current wallpaper that is part of a sequence is advanced; where none
/// is, an entry is drawn, if possible not the current one, and shown, or
/// entered if it is a sequence.
pub fn get_next_wallpaper(
    settings: &Settings,
    current: &str,
    kind: PathKind,
    listing: &Vec<DirectoryEntry>,
) -> (r: Result<ImagePath, WallshiftError>)
    ensures
        is_next_wallpaper(settings.wallpaper_dir@, current@, kind, listing@, r),
{
    let ghost root = settings.wallpaper_dir@;
    let ghost exclude = exclusion_for(current@, kind);
    let exists = match kind {
        PathKind::Missing => false,
        _ => true,
    };
    let pool = if exists {
        candidates(settings, listing, Some(current))
    } else {
        candidates(settings, listing, None)
    };
    if pool.len() == 0 {
        return Err(WallshiftError::Selection { source: SelectionError::EmptyPool });
    }
    match File::new(current.to_owned(), kind) {
        Some(mut file) => {
            if file.is_animated(settings) {
                return update_animated(settings, &file, listing);
            }
        },
        None => {},
    }
    let k = random_index(pool.len());
    let i = pool[k];
    assert(can_be_drawn(listing@, root, exclude, pool[k as int] as int));
    match enter(settings, listing, i) {
        Ok(Some(image)) => {
            let r = Ok(image);
            assert(settles(enter_spec(root, listing@, i as int), r));
            r
        },
        Ok(None) => {
            let r = draw_fresh(settings, listing);
            assert(enter_spec(root, listing@, i as int) is Exhausted);
            r
        },
        Err(e) => {
            proof {
                lemma_entering_has_a_number(root, listing@, i as int);
            }
            let r = Err(e);
            assert(settles(enter_spec(root, listing@, i as int), r));
            r
        },
    }
}

/// Whether every entry's name is one component of a path.
pub open spec fn all_well_formed(listing: Seq<DirectoryEntry>) -> bool {
    forall|i: int| 0 <= i < listing.len() ==> (#[trigger] listing[i]).well_formed()
}

/// A sequence whose directory holds `count` entries runs from its first
/// frame to frame `count`, and is exhausted after that: whatever is shown
/// next comes of fresh draws, and is not frame `count + 1` of the sequence.
pub proof fn lemma_sequence_runs_out(
    root: Seq<char>,
    listing: Seq<DirectoryEntry>,
    name: Seq<char>,
    count: usize,
    r: Result<ImagePath, WallshiftError>,
)
    requires
        all_well_formed(listing),
        !name.contains(SEPARATOR),
        sequence_entries(listing, name) == Some(count),
        comes_of_fresh_draws(root, listing, r),
    ensures
        forall|index: nat|
            1 <= index <= count && index <= u32::MAX ==> #[trigger] advance_spec(
                root,
                listing,
                name,
                Some(index),
            ) == Outcome::Show(frame_path_of(root, name, index)),
        advance_spec(root, listing, name, Some((count + 1) as nat)) is Exhausted,
        r matches Ok(image) ==> image@ != frame_path_of(root, name, (count + 1) as nat),
{
    if let Ok(image) = r {
        let next = (count + 1) as nat;
        let i = choose|i: int|
            is_visible_at(listing, i) && #[trigger] enter_spec(root, listing, i) == Outcome::Show(
                image@,
            );
        let entry = listing[i]@;
        assert(listing[i].well_formed());
        lemma_frame_path_depth(root, name, next);
        match entry.kind {
            EntryKind::Image => {
                lemma_child_parts(root, entry.name);
                lemma_not_both_depths(image@, root);
            },
            EntryKind::Sequence { .. } => {
                if image@ == frame_path_of(root, name, next) {
                    lemma_frame_path_is_injective(root, entry.name, 1, name, next);
                }
            },
        }
    }
}

/// A frame that the engine has shown is gone on from: once it is the
/// current wallpaper, its sequence continues with the next number. This
/// takes a sequence whose name does not itself end in a digit.
pub proof fn lemma_frames_follow_one_another(root: Seq<char>, name: Seq<char>, index: nat)
    requires
        !name.contains(SEPARATOR),
        name.len() == 0 || !is_digit(name.last()),
        index <= u32::MAX,
    ensures
        continues_sequence(frame_path_of(root, name, index), PathKind::Regular, root),
        sequence_name_at(frame_path_of(root, name, index), PathKind::Regular) == name,
        next_index_at(frame_path_of(root, name, index), PathKind::Regular) == Some(index + 1),
{
    lemma_frame_path_parts(root, name, index);
}

/// A sequence's directory that is the current wallpaper is entered at the
/// first frame.
pub proof fn lemma_directory_is_entered(root: Seq<char>, name: Seq<char>)
    requires
        !name.contains(SEPARATOR),
    ensures
        continues_sequence(child_of(root, name), PathKind::Directory, root),
        sequence_name_at(child_of(root, name), PathKind::Directory) == name,
        next_index_at(child_of(root, name), PathKind::Directory) == Some(1nat),
{
    lemma_child_parts(root, name);
}

/// The wallpaper that is shown is not shown again at once: where `current`
/// is a file directly inside the wallpaper directory, and some entry that
/// is not hidden has another path, what a draw leads to is not `current`.
pub proof fn lemma_no_immediate_repeat(
    root: Seq<char>,
    listing: Seq<DirectoryEntry>,
    current: Seq<char>,
    r: Result<ImagePath, WallshiftError>,
)
    requires
        all_well_formed(listing),
        is_directly_below(current, root),
        !none_eligible(listing, root, Some(current)),
        comes_of_first_draw(root, listing, Some(current), r),
    ensures
        r matches Ok(image) ==> image@ != current,
{
    if let Ok(image) = r {
        let i = choose|i: int|
            #[trigger] can_be_drawn(listing, root, Some(current), i) && settles(
                enter_spec(root, listing, i),
                r,
            );
        let entry = listing[i]@;
        assert(listing[i].well_formed());
        match entry.kind {
            EntryKind::Image => {},
            EntryKind::Sequence { .. } => {
                lemma_frame_path_depth(root, entry.name, 1);
                lemma_not_both_depths(image@, root);
            },
        }
    }
}

/// Where the pool is one image, that image is selected, also while it is
/// the one that is shown: leaving it out would leave nothing.
pub proof fn lemma_only_image_is_selected(
    root: Seq<char>,
    listing: Seq<DirectoryEntry>,
    current: Seq<char>,
    kind: PathKind,
    r: Result<ImagePath, WallshiftError>,
)
    requires
        listing.len() == 1,
        listing[0]@.kind is Image,
        is_visible(listing[0]@),
        !continues_sequence(current, kind, root),
        is_next_wallpaper(root, current, kind, listing, r),
    ensures
        r matches Ok(image) && image@ == child_of(root, listing[0]@.name),
{
    assert(is_visible_at(listing, 0));
    assert(enter_spec(root, listing, 0) is Show);
    assert(all_can_be_shown(root, listing));
}

/// A running sequence goes on: where frame `index` of a sequence with more
/// entries than that is shown, frame `index + 1` is next, whatever else
/// is in the pool.
pub proof fn lemma_running_sequence_goes_on(
    root: Seq<char>,
    listing: Seq<DirectoryEntry>,
    name: Seq<char>,
    index: nat,
    count: usize,
    r: Result<ImagePath, WallshiftError>,
)
    requires
        !name.contains(SEPARATOR),
        name.len() == 0 || !is_digit(name.last()),
        !is_hidden_name(name),
        sequence_entries(listing, name) == Some(count),
        index < count,
        index < u32::MAX,
        is_next_wallpaper(root, frame_path_of(root, name, index), PathKind::Regular, listing, r),
    ensures
        r matches Ok(image) && image@ == frame_path_of(root, name, index + 1),
{
    lemma_frames_follow_one_another(root, name, index);
    lemma_found_sequence_is_listed(listing, name, 0);
    let k = find_sequence(listing, name, 0)->0;
    assert(is_visible(listing[k]@));
}

/// The entry that `find_sequence` finds is a directory of that name.
pub proof fn lemma_found_sequence_is_listed(listing: Seq<DirectoryEntry>, name: Seq<char>, from: int)
    requires
        0 <= from,
    ensures
        find_sequence(listing, name, from) matches Some(k) ==> from <= k < listing.len()
            && is_sequence_named(listing[k]@, name),
    decreases listing.len() - from,
{
    if from < listing.len() && !is_sequence_named(listing[from]@, name) {
        lemma_found_sequence_is_listed(listing, name, from + 1);
    }
}

} // verus!
