//! The controller: what the program does, step by step.
//!
//! The controller decides; the caller acts. Each step takes what the
//! caller's last action brought (an `Event`) and answers with the next thing
//! to do (a `Request`): look at the disk, set the wallpaper, write the
//! record, sleep, print, report an error, or end. Launched without a
//! command the program cycles for ever; every other command runs once.

use vstd::prelude::*;
use vstd::string::*;
use crate::cli::Actions;
use crate::configuration::Settings;
use crate::data::{save_wallpaper, set_off, set_on, FileInfo};
use crate::error::WallshiftError;
use crate::path::{sleep_time_spec, ImagePath, PathKind};
use crate::pathname::{parent, parent_of};
use crate::wallpaper::{get_next_wallpaper, is_next_wallpaper, DirectoryEntry};

verus! {

/// What the controller waits for.
#[derive(Debug, Clone, Copy, PartialEq, Eq, Structural)]
pub enum Stage {
    /// Nothing was asked for yet.
    Idle,
    /// The record, the current wallpaper's path and the wallpaper
    /// directory are being looked at.
    Observing,
    /// The record is being read.
    Reading,
    /// The wallpaper is being set.
    Applying,
    /// The record is being written.
    Persisting,
    /// The entries of the shown frame's directory are being counted.
    Timing,
    /// The caller sleeps.
    Sleeping,
    /// The next wallpaper's path is being printed.
    Printing,
    /// An error is being reported.
    Reporting,
    /// The program has been told to end.
    Finished,
}

/// What the caller's last action brought.
#[derive(Debug)]
pub enum Event {
    /// Nothing yet: the program has just started.
    Start,
    /// The record, what was found at the path it names, and the entries
    /// of the wallpaper directory.
    Observed { state: FileInfo, kind: PathKind, listing: Vec<DirectoryEntry> },
    /// The record.
    State { state: FileInfo },
    /// The wallpaper was set.
    Applied,
    /// The record was written.
    Persisted,
    /// The number of entries in the directory, `None` where it could not
    /// be read.
    Counted { entries: Option<usize> },
    /// The sleep is over.
    Woke,
    /// The text was printed.
    Printed,
    /// The error was reported.
    Reported,
    /// The action failed.
    Failed { message: String },
}

/// What the caller is to do next.
#[derive(Debug)]
pub enum Request {
    /// Read the record, look what is at the path it names, and list the
    /// wallpaper directory.
    Observe,
    /// Read the record.
    ReadState,
    /// Set the wallpaper at `path`, on the lock screen too where
    /// `lock_screen` is set.
    Apply { path: String, lock_screen: bool },
    /// Write the record.
    Persist { state: FileInfo },
    /// Count the entries of `directory`.
    Count { directory: String },
    /// Sleep.
    Sleep { seconds: u64 },
    /// Print `text`.
    Print { text: String },
    /// Report `text` as an error.
    Report { text: String },
    /// End the program, with a failure where `failed` is set.
    Exit { failed: bool },
}

/// The controller's state.
#[derive(Debug)]
pub struct Controller {
    /// The settings of this run.
    pub settings: Settings,
    /// The command of this run.
    pub action: Actions,
    /// What the controller waits for.
    pub stage: Stage,
    /// The wallpaper that is being set, or was set last.
    pub pending: Option<ImagePath>,
    /// The record as it was read last.
    pub record: Option<FileInfo>,
}

pub const UNEXPECTED_EVENT_TEXT: &'static str = "the event does not answer the request";

/// The directory that holds `path`; empty where the path has no parent.
pub open spec fn directory_of(path: Seq<char>) -> Seq<char> {
    match parent_of(path) {
        Some(dir) => dir,
        None => Seq::empty(),
    }
}

/// Whether the command comes to the stage: only a cycle sleeps and counts
/// frames, only a query prints and it writes nothing, pausing and resuming
/// only read and write the record, and an explicit wallpaper is set
/// without a look at the wallpaper directory.
pub open spec fn stage_serves(stage: Stage, action: Actions) -> bool {
    match stage {
        Stage::Idle | Stage::Reporting | Stage::Finished => true,
        Stage::Observing => action is Launch || action is Toggle || action is Get,
        Stage::Reading => action is Stop || action is Resume || action is SetExplicit,
        Stage::Applying => action is Launch || action is Toggle || action is SetExplicit,
        Stage::Persisting => !(action is Get),
        Stage::Timing | Stage::Sleeping => action is Launch,
        Stage::Printing => action is Get,
    }
}

/// Whether the command comes to the stage.
pub fn serves(stage: Stage, action: &Actions) -> (r: bool)
    ensures
        r == stage_serves(stage, *action),
{
    match stage {
        Stage::Idle | Stage::Reporting | Stage::Finished => true,
        Stage::Observing => match action {
            Actions::Launch | Actions::Toggle | Actions::Get => true,
            _ => false,
        },
        Stage::Reading => match action {
            Actions::Stop | Actions::Resume | Actions::SetExplicit(_) => true,
            _ => false,
        },
        Stage::Applying => match action {
            Actions::Launch | Actions::Toggle | Actions::SetExplicit(_) => true,
            _ => false,
        },
        Stage::Persisting => match action {
            Actions::Get => false,
            _ => true,
        },
        Stage::Timing | Stage::Sleeping => match action {
            Actions::Launch => true,
            _ => false,
        },
        Stage::Printing => match action {
            Actions::Get => true,
            _ => false,
        },
    }
}

impl Controller {
    /// Whether the controller holds `path` as the wallpaper that is being
    /// set.
    pub open spec fn pending_is(&self, path: Seq<char>) -> bool {
        self.pending matches Some(image) && image@ == path
    }

    /// Whether the wallpaper that is being set counts as a frame.
    pub open spec fn pending_is_animated(&self) -> bool {
        self.pending matches Some(image) && image.animated_under(self.settings.wallpaper_dir@)
    }

    /// Whether the controller holds a record with this content.
    pub open spec fn record_is(&self, wallpaper: Seq<char>, on: bool) -> bool {
        self.record matches Some(state) && state.wallpaper@ == wallpaper && state.on == on
    }

    /// Whether `after` runs the same command under the same settings.
    pub open spec fn same_run(&self, after: Controller) -> bool {
        &&& after.settings.wallpaper_dir@ == self.settings.wallpaper_dir@
        &&& after.settings.betterlockscreen == self.settings.betterlockscreen
        &&& after.settings.sleep_time == self.settings.sleep_time
        &&& match self.action {
            Actions::Launch => after.action is Launch,
            Actions::Toggle => after.action is Toggle,
            Actions::Get => after.action is Get,
            Actions::Stop => after.action is Stop,
            Actions::Resume => after.action is Resume,
            Actions::SetExplicit(path) => after.action matches Actions::SetExplicit(same)
                && same@ == path@,
        }
    }

    /// Whether the controller asks for `text` to be reported.
    pub open spec fn reports(after: Controller, request: Request, text: Seq<char>) -> bool {
        &&& after.stage == Stage::Reporting
        &&& request matches Request::Report { text: given }
        &&& given@ == text
    }

    /// Whether the controller asks for a sleep of `seconds`.
    pub open spec fn sleeps(after: Controller, request: Request, seconds: u64) -> bool {
        &&& after.stage == Stage::Sleeping
        &&& request matches Request::Sleep { seconds: given }
        &&& given == seconds
    }

    /// Whether the controller ends the program.
    pub open spec fn exits(after: Controller, request: Request, failed: bool) -> bool {
        &&& after.stage == Stage::Finished
        &&& request matches Request::Exit { failed: given }
        &&& given == failed
    }

    /// Whether the controller asks for the wallpaper at `path` to be set,
    /// and holds it as pending.
    pub open spec fn applies(&self, after: Controller, request: Request, path: Seq<char>) -> bool {
        &&& after.stage == Stage::Applying
        &&& request matches Request::Apply { path: given, lock_screen }
        &&& given@ == path
        &&& lock_screen == self.settings.betterlockscreen
        &&& after.pending_is(path)
    }

    /// Whether the controller asks for a record with this content to be
    /// written.
    pub open spec fn persists(after: Controller, request: Request, wallpaper: Seq<char>, on: bool) -> bool {
        &&& after.stage == Stage::Persisting
        &&& request matches Request::Persist { state }
        &&& state.wallpaper@ == wallpaper
        &&& state.on == on
    }

    /// What follows the program's start: a cycle or a query begins by
    /// looking at the disk, pausing and resuming by reading the record, and
    /// an explicit wallpaper is set at once.
    pub open spec fn starts(&self, after: Controller, request: Request) -> bool {
        match self.action {
            Actions::Launch | Actions::Toggle | Actions::Get => after.stage == Stage::Observing
                && request is Observe,
            Actions::Stop | Actions::Resume => after.stage == Stage::Reading
                && request is ReadState,
            Actions::SetExplicit(path) => self.applies(after, request, path@),
        }
    }

    /// What follows a selection: a query prints the wallpaper's path, a
    /// cycle sets the wallpaper and keeps the record for later; an error is
    /// reported.
    pub open spec fn follows_selection(
        &self,
        state: FileInfo,
        selection: Result<ImagePath, WallshiftError>,
        after: Controller,
        request: Request,
    ) -> bool {
        match selection {
            Ok(image) => if self.action is Get {
                &&& after.stage == Stage::Printing
                &&& request matches Request::Print { text }
                &&& text@ == image@
            } else {
                &&& self.applies(after, request, image@)
                &&& after.pending_is_animated() == image.animated_under(
                    self.settings.wallpaper_dir@,
                )
                &&& after.record_is(state.wallpaper@, state.on)
            },
            Err(e) => Self::reports(after, request, e.detail_text()),
        }
    }

    /// What follows a look at the disk: while cycling is paused, a cycle
    /// only sleeps; else the next wallpaper is selected.
    pub open spec fn follows_observation(
        &self,
        state: FileInfo,
        kind: PathKind,
        listing: Seq<DirectoryEntry>,
        after: Controller,
        request: Request,
    ) -> bool {
        if self.action is Launch && !state.on {
            Self::sleeps(after, request, self.settings.sleep_time)
        } else {
            exists|selection: Result<ImagePath, WallshiftError>|
                #[trigger] is_next_wallpaper(
                    self.settings.wallpaper_dir@,
                    state.wallpaper@,
                    kind,
                    listing,
                    selection,
                ) && self.follows_selection(state, selection, after, request)
        }
    }

    /// What follows the reading of the record: pausing and resuming write
    /// it back with cycling off or on, and an explicit wallpaper, which was
    /// set before, is written into it.
    pub open spec fn follows_reading(&self, state: FileInfo, after: Controller, request: Request) -> bool {
        match self.action {
            Actions::Stop => Self::persists(after, request, state.wallpaper@, false),
            Actions::Resume => Self::persists(after, request, state.wallpaper@, true),
            Actions::SetExplicit(path) => Self::persists(after, request, path@, state.on),
            _ => Self::reports(after, request, UNEXPECTED_EVENT_TEXT@),
        }
    }

    /// What follows once the wallpaper was set: it is written into the
    /// record, which an explicit wallpaper has yet to read.
    pub open spec fn follows_applying(&self, after: Controller, request: Request) -> bool {
        if self.action is SetExplicit {
            after.stage == Stage::Reading && request is ReadState
        } else {
            match (self.pending, self.record) {
                (Some(image), Some(state)) => {
                    &&& Self::persists(after, request, image@, state.on)
                    &&& after.pending_is(image@)
                    &&& after.pending_is_animated() == self.pending_is_animated()
                },
                _ => Self::reports(after, request, UNEXPECTED_EVENT_TEXT@),
            }
        }
    }

    /// What follows once the record was written: a single run ends; a
    /// cycle sleeps, after counting the frames where a frame is shown.
    pub open spec fn follows_persisting(&self, after: Controller, request: Request) -> bool {
        if !(self.action is Launch) {
            Self::exits(after, request, false)
        } else {
            match self.pending {
                Some(image) => if self.pending_is_animated() {
                    &&& after.stage == Stage::Timing
                    &&& request matches Request::Count { directory }
                    &&& directory@ == directory_of(image@)
                    &&& after.pending_is(image@)
                    &&& after.pending_is_animated()
                } else {
                    Self::sleeps(after, request, self.settings.sleep_time)
                },
                None => Self::reports(after, request, UNEXPECTED_EVENT_TEXT@),
            }
        }
    }

    /// What follows the count of a frame's directory: a sleep of the
    /// frame's share of the time, or the report of an error.
    pub open spec fn follows_counting(
        &self,
        entries: Option<usize>,
        after: Controller,
        request: Request,
    ) -> bool {
        match self.pending {
            Some(image) => match sleep_time_spec(
                self.pending_is_animated(),
                self.settings.sleep_time,
                entries,
            ) {
                Ok(seconds) => Self::sleeps(after, request, seconds),
                Err(text) => Self::reports(after, request, text),
            },
            None => Self::reports(after, request, UNEXPECTED_EVENT_TEXT@),
        }
    }

    /// What follows the report of an error: a cycle sleeps and tries
    /// again, a single run ends as failed.
    pub open spec fn follows_report(&self, after: Controller, request: Request) -> bool {
        if self.action is Launch {
            Self::sleeps(after, request, self.settings.sleep_time)
        } else {
            Self::exits(after, request, true)
        }
    }

    /// Whether the controller, given `event`, can go on as `after` and ask
    /// for `request`.
    ///
    /// An event that answers what the controller waits for is followed as
    /// its stage says. A failure is reported, whatever was waited for. Any
    /// other event is reported as unexpected, and so is any event in a
    /// stage that the command never comes to. Once the program was told to
    /// end, it is told so again.
    pub open spec fn steps_to(&self, event: Event, after: Controller, request: Request) -> bool {
        &&& self.same_run(after)
        &&& match (self.stage, event) {
            (Stage::Finished, _) => Self::exits(after, request, true),
            (stage, _) if !stage_serves(stage, self.action) => Self::reports(
                after,
                request,
                UNEXPECTED_EVENT_TEXT@,
            ),
            (Stage::Idle, Event::Start) => self.starts(after, request),
            (Stage::Idle, _) => Self::reports(after, request, UNEXPECTED_EVENT_TEXT@),
            (_, Event::Failed { message }) => Self::reports(after, request, message@),
            (Stage::Observing, Event::Observed { state, kind, listing }) => self.follows_observation(
                state,
                kind,
                listing@,
                after,
                request,
            ),
            (Stage::Reading, Event::State { state }) => self.follows_reading(
                state,
                after,
                request,
            ),
            (Stage::Applying, Event::Applied) => self.follows_applying(after, request),
            (Stage::Persisting, Event::Persisted) => self.follows_persisting(after, request),
            (Stage::Timing, Event::Counted { entries }) => self.follows_counting(
                entries,
                after,
                request,
            ),
            (Stage::Sleeping, Event::Woke) => after.stage == Stage::Observing
                && request is Observe,
            (Stage::Printing, Event::Printed) => Self::exits(after, request, false),
            (Stage::Reporting, Event::Reported) => self.follows_report(after, request),
            _ => Self::reports(after, request, UNEXPECTED_EVENT_TEXT@),
        }
    }

    /// The controller of a run that has not started.
    pub fn new(settings: Settings, action: Actions) -> (controller: Self)
        ensures
            controller.settings == settings,
            controller.action == action,
            controller.stage == Stage::Idle,
            controller.pending is None,
            controller.record is None,
    {
        Controller { settings, action, stage: Stage::Idle, pending: None, record: None }
    }

    fn report(self, text: String) -> (r: (Controller, Request))
        ensures
            self.same_run(r.0),
            Self::reports(r.0, r.1, text@),
    {
        (
            Controller {
                settings: self.settings,
                action: self.action,
                stage: Stage::Reporting,
                pending: None,
                record: None,
            },
            Request::Report { text },
        )
    }

    fn unexpected(self) -> (r: (Controller, Request))
        ensures
            self.same_run(r.0),
            Self::reports(r.0, r.1, UNEXPECTED_EVENT_TEXT@),
    {
        self.report(UNEXPECTED_EVENT_TEXT.to_owned())
    }

    fn sleep(self, seconds: u64) -> (r: (Controller, Request))
        ensures
            self.same_run(r.0),
            Self::sleeps(r.0, r.1, seconds),
    {
        (
            Controller {
                settings: self.settings,
                action: self.action,
                stage: Stage::Sleeping,
                pending: None,
                record: None,
            },
            Request::Sleep { seconds },
        )
    }

    fn exit(self, failed: bool) -> (r: (Controller, Request))
        ensures
            self.same_run(r.0),
            Self::exits(r.0, r.1, failed),
    {
        (
            Controller {
                settings: self.settings,
                action: self.action,
                stage: Stage::Finished,
                pending: None,
                record: None,
            },
            Request::Exit { failed },
        )
    }

    fn ask(self, stage: Stage, request: Request) -> (r: (Controller, Request))
        ensures
            self.same_run(r.0),
            r.0.stage == stage,
            r.0.pending == self.pending,
            r.0.record == self.record,
            r.0.settings == self.settings,
            r.1 == request,
    {
        (
            Controller {
                settings: self.settings,
                action: self.action,
                stage,
                pending: self.pending,
                record: self.record,
            },
            request,
        )
    }

    fn apply(self, image: ImagePath, record: Option<FileInfo>) -> (r: (Controller, Request))
        ensures
            self.same_run(r.0),
            self.applies(r.0, r.1, image@),
            r.0.pending == Some(image),
            r.0.record == record,
            r.0.settings == self.settings,
    {
        let path = image.to_string();
        let lock_screen = self.settings.betterlockscreen;
        (
            Controller {
                settings: self.settings,
                action: self.action,
                stage: Stage::Applying,
                pending: Some(image),
                record,
            },
            Request::Apply { path, lock_screen },
        )
    }

    fn start(self) -> (r: (Controller, Request))
        ensures
            self.same_run(r.0),
            self.starts(r.0, r.1),
    {
        match &self.action {
            Actions::Launch | Actions::Toggle | Actions::Get => self.ask(
                Stage::Observing,
                Request::Observe,
            ),
            Actions::Stop | Actions::Resume => self.ask(Stage::Reading, Request::ReadState),
            Actions::SetExplicit(path) => {
                let image = ImagePath::unprobed(path.clone());
                self.apply(image, None)
            },
        }
    }

    fn observed(self, state: FileInfo, kind: PathKind, listing: Vec<DirectoryEntry>) -> (r: (
        Controller,
        Request,
    ))
        ensures
            self.same_run(r.0),
            self.follows_observation(state, kind, listing@, r.0, r.1),
    {
        let paused = match &self.action {
            Actions::Launch => !state.on,
            _ => false,
        };
        if paused {
            let seconds = self.settings.sleep_time;
            return self.sleep(seconds);
        }
        let selection = get_next_wallpaper(&self.settings, state.wallpaper.as_str(), kind, &listing);
        let r = match selection {
            Ok(image) => {
                let printing = match &self.action {
                    Actions::Get => true,
                    _ => false,
                };
                if printing {
                    let text = image.to_string();
                    self.ask(Stage::Printing, Request::Print { text })
                } else {
                    self.apply(image, Some(state))
                }
            },
            Err(e) => {
                let text = e.detail();
                self.report(text)
            },
        };
        assert(self.follows_selection(state, selection, r.0, r.1));
        r
    }

    fn read(self, state: FileInfo) -> (r: (Controller, Request))
        ensures
            self.same_run(r.0),
            self.follows_reading(state, r.0, r.1),
    {
        match &self.action {
            Actions::Stop => {
                let state = set_off(state);
                self.ask(Stage::Persisting, Request::Persist { state })
            },
            Actions::Resume => {
                let state = set_on(state);
                self.ask(Stage::Persisting, Request::Persist { state })
            },
            Actions::SetExplicit(path) => {
                let state = save_wallpaper(state, path.as_str());
                self.ask(Stage::Persisting, Request::Persist { state })
            },
            _ => self.unexpected(),
        }
    }

    fn applied(self) -> (r: (Controller, Request))
        ensures
            self.same_run(r.0),
            self.follows_applying(r.0, r.1),
    {
        let explicit = match &self.action {
            Actions::SetExplicit(_) => true,
            _ => false,
        };
        if explicit {
            return self.ask(Stage::Reading, Request::ReadState);
        }
        let Controller { settings, action, stage, pending, record } = self;
        match (pending, record) {
            (Some(image), Some(state)) => {
                let state = save_wallpaper(state, image.path());
                (
                    Controller {
                        settings,
                        action,
                        stage: Stage::Persisting,
                        pending: Some(image),
                        record: None,
                    },
                    Request::Persist { state },
                )
            },
            _ => {
                let rest = Controller { settings, action, stage, pending: None, record: None };
                rest.unexpected()
            },
        }
    }

    fn persisted(self) -> (r: (Controller, Request))
        ensures
            self.same_run(r.0),
            self.follows_persisting(r.0, r.1),
    {
        let cycling = match &self.action {
            Actions::Launch => true,
            _ => false,
        };
        if !cycling {
            return self.exit(false);
        }
        let Controller { settings, action, stage, pending, record } = self;
        match pending {
            Some(mut image) => {
                if image.is_animated(&settings) {
                    let directory = match parent(image.path()) {
                        Some(dir) => dir,
                        None => String::new(),
                    };
                    (
                        Controller {
                            settings,
                            action,
                            stage: Stage::Timing,
                            pending: Some(image),
                            record: None,
                        },
                        Request::Count { directory },
                    )
                } else {
                    let seconds = settings.sleep_time;
                    let rest = Controller { settings, action, stage, pending: None, record: None };
                    rest.sleep(seconds)
                }
            },
            None => {
                let rest = Controller { settings, action, stage, pending: None, record: None };
                rest.unexpected()
            },
        }
    }

    fn counted(self, entries: Option<usize>) -> (r: (Controller, Request))
        ensures
            self.same_run(r.0),
            self.follows_counting(entries, r.0, r.1),
    {
        let Controller { settings, action, stage, pending, record } = self;
        match pending {
            Some(mut image) => {
                let time = image.get_sleep_time(&settings, entries);
                let rest = Controller { settings, action, stage, pending: None, record: None };
                match time {
                    Ok(seconds) => rest.sleep(seconds),
                    Err(e) => rest.report(e.to_string()),
                }
            },
            None => {
                let rest = Controller { settings, action, stage, pending: None, record: None };
                rest.unexpected()
            },
        }
    }

    fn reported(self) -> (r: (Controller, Request))
        ensures
            self.same_run(r.0),
            self.follows_report(r.0, r.1),
    {
        let cycling = match &self.action {
            Actions::Launch => true,
            _ => false,
        };
        if cycling {
            let seconds = self.settings.sleep_time;
            self.sleep(seconds)
        } else {
            self.exit(true)
        }
    }

    /// Takes what the caller's last action brought, and says what is to be
    /// done next.
    pub fn step(self, event: Event) -> (r: (Controller, Request))
        ensures
            self.steps_to(event, r.0, r.1),
    {
        if !serves(self.stage, &self.action) {
            return self.unexpected();
        }
        match self.stage {
            Stage::Finished => self.exit(true),
            Stage::Idle => match event {
                Event::Start => self.start(),
                _ => self.unexpected(),
            },
            stage => match event {
                Event::Failed { message } => self.report(message),
                Event::Observed { state, kind, listing } => match stage {
                    Stage::Observing => self.observed(state, kind, listing),
                    _ => self.unexpected(),
                },
                Event::State { state } => match stage {
                    Stage::Reading => self.read(state),
                    _ => self.unexpected(),
                },
                Event::Applied => match stage {
                    Stage::Applying => self.applied(),
                    _ => self.unexpected(),
                },
                Event::Persisted => match stage {
                    Stage::Persisting => self.persisted(),
                    _ => self.unexpected(),
                },
                Event::Counted { entries } => match stage {
                    Stage::Timing => self.counted(entries),
                    _ => self.unexpected(),
                },
                Event::Woke => match stage {
                    Stage::Sleeping => self.ask(Stage::Observing, Request::Observe),
                    _ => self.unexpected(),
                },
                Event::Printed => match stage {
                    Stage::Printing => self.exit(false),
                    _ => self.unexpected(),
                },
                Event::Reported => match stage {
                    Stage::Reporting => self.reported(),
                    _ => self.unexpected(),
                },
                Event::Start => self.unexpected(),
            },
        }
    }
}

/// The record is written only after the wallpaper was set or, for the
/// commands that change nothing else, after the record was read: never
/// after a failure.
pub proof fn lemma_persist_follows_success(
    before: Controller,
    event: Event,
    after: Controller,
    request: Request,
)
    requires
        before.steps_to(event, after, request),
        request is Persist,
    ensures
        event is Applied || event is State,
        event is Applied ==> before.stage == Stage::Applying,
        event is State ==> before.stage == Stage::Reading,
{
}

/// A cycle does not end by itself: it is never told to exit.
pub proof fn lemma_cycle_never_ends(
    before: Controller,
    event: Event,
    after: Controller,
    request: Request,
)
    requires
        before.steps_to(event, after, request),
        before.action is Launch,
        before.stage != Stage::Finished,
    ensures
        !(request is Exit),
        after.action is Launch,
        after.stage != Stage::Finished,
{
}

/// A query changes nothing: it neither sets a wallpaper nor writes the
/// record.
pub proof fn lemma_query_changes_nothing(
    before: Controller,
    event: Event,
    after: Controller,
    request: Request,
)
    requires
        before.steps_to(event, after, request),
        before.action is Get,
    ensures
        !(request is Apply),
        !(request is Persist),
{
}

/// Pausing and resuming set no wallpaper, and leave the wallpaper that
/// the record names as it is.
pub proof fn lemma_pausing_keeps_the_wallpaper(
    before: Controller,
    event: Event,
    after: Controller,
    request: Request,
)
    requires
        before.steps_to(event, after, request),
        before.action is Stop || before.action is Resume,
    ensures
        !(request is Apply),
        request matches Request::Persist { state } ==> event matches Event::State { state: read }
            && state.wallpaper@ == read.wallpaper@ && state.on == (before.action is Resume),
{
}

/// While cycling is paused, a cycle neither selects nor sets a wallpaper:
/// it sleeps for the whole time.
pub proof fn lemma_paused_cycle_sleeps(
    before: Controller,
    event: Event,
    after: Controller,
    request: Request,
)
    requires
        before.steps_to(event, after, request),
        before.action is Launch,
        before.stage == Stage::Observing,
        event matches Event::Observed { state, .. } && !state.on,
    ensures
        request matches Request::Sleep { seconds } && seconds == before.settings.sleep_time,
{
}

} // verus!
