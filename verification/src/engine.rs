//! The engine as a state machine: the driver reports an event, the engine
//! answers with its next state and the action to perform.

use vstd::prelude::*;
use crate::config::{texts, ConfigError, DirQDArgs, Settings};
use crate::disposal::{dispose, disposal_of, Disposal, DisposalView};
use crate::entry::{Entry, EntryNames, FileEntry, Names};
use crate::outcome::{classify, outcome_of, Completion, CompletionView, Outcome, OutcomeView};
use crate::scan::{examine, verdict_of, SkipReason, Verdict, VerdictView};

verus! {

/// The kind of change that the notifier reports.
#[derive(Clone, Copy, Debug, PartialEq, Eq, Structural)]
pub enum ChangeKind {
    /// A change of unknown kind.
    Any,
    /// Something was opened, read or closed.
    Access,
    /// Something was created.
    Create,
    /// Content, name or metadata of something changed.
    Modify,
    /// Something was removed.
    Remove,
    /// A change of none of these kinds.
    Other,
}

impl ChangeKind {
    /// A creation or a modification starts a scan; nothing else does.
    pub open spec fn triggers_scan(self) -> bool {
        self is Create || self is Modify
    }

    /// Tells whether a change of this kind starts a scan.
    pub fn starts_scan(&self) -> (starts: bool)
        ensures
            starts == self.triggers_scan(),
    {
        match self {
            ChangeKind::Create => true,
            ChangeKind::Modify => true,
            _ => false,
        }
    }
}

/// How the engine ended.
#[derive(Clone, Copy, Debug, PartialEq, Eq, Structural)]
pub enum Ending {
    /// The notifier closed: the expected way to shut down.
    Clean,
    /// The configuration was refused before any watch was set up.
    Invalid(ConfigError),
    /// The directory could not be watched.
    Unwatchable,
}

impl Ending {
    /// The process exit code: 0 for a clean shutdown, 1 for a failed startup.
    pub open spec fn code(self) -> int {
        if self is Clean {
            0
        } else {
            1
        }
    }

    /// The exit code to end the process with.
    pub fn exit_code(&self) -> (code: u8)
        ensures
            code == self.code(),
    {
        match self {
            Ending::Clean => 0,
            _ => 1,
        }
    }
}

/// Where the engine stands between two reports of the driver.
#[derive(Clone, Debug, PartialEq, Eq)]
pub enum State {
    /// Nothing has happened yet.
    Starting,
    /// The watch on the directory is being set up.
    Subscribing,
    /// A scan is under way and the next directory entry is awaited.
    Listing,
    /// A scan is under way and the command runs on this file.
    Running(EntryNames),
    /// A scan is under way and a file is being moved or deleted.
    Disposing,
    /// No scan is under way; the next notification is awaited.
    Idle,
    /// The engine has ended.
    Stopped,
}

/// The mathematical content of a [`State`].
pub enum StateView {
    Starting,
    Subscribing,
    Listing,
    Running(Names),
    Disposing,
    Idle,
    Stopped,
}

impl View for State {
    type V = StateView;

    open spec fn view(&self) -> StateView {
        match *self {
            State::Starting => StateView::Starting,
            State::Subscribing => StateView::Subscribing,
            State::Listing => StateView::Listing,
            State::Running(names) => StateView::Running(names@),
            State::Disposing => StateView::Disposing,
            State::Idle => StateView::Idle,
            State::Stopped => StateView::Stopped,
        }
    }
}

impl StateView {
    /// A scan is under way.
    pub open spec fn scanning(self) -> bool {
        self is Listing || self is Running || self is Disposing
    }
}

/// What the driver reports.
#[derive(Clone, Debug, PartialEq, Eq)]
pub enum Event {
    /// The driver is ready.
    Started,
    /// The watch on the directory is set up.
    Watching,
    /// The watch on the directory could not be set up.
    WatchFailed,
    /// The notifier reported a change.
    Changed(ChangeKind),
    /// The notifier reported an error.
    NotifierFailed,
    /// The notifier closed: no more changes will be reported.
    NotifierClosed,
    /// The directory could not be listed.
    ListingFailed,
    /// The next entry of the listing could not be read.
    EntryFailed,
    /// The next entry of the listing.
    Entry(FileEntry),
    /// The listing has no more entries.
    ListingEnded,
    /// The command has ended, or could not be started.
    Completed(Completion),
    /// The file was moved or deleted.
    Disposed,
    /// The file could not be moved or deleted, and is where it was.
    DisposalFailed,
}

/// The mathematical content of an [`Event`].
pub enum EventView {
    Started,
    Watching,
    WatchFailed,
    Changed(ChangeKind),
    NotifierFailed,
    NotifierClosed,
    ListingFailed,
    EntryFailed,
    Entry(Entry),
    ListingEnded,
    Completed(CompletionView),
    Disposed,
    DisposalFailed,
}

impl View for Event {
    type V = EventView;

    open spec fn view(&self) -> EventView {
        match *self {
            Event::Started => EventView::Started,
            Event::Watching => EventView::Watching,
            Event::WatchFailed => EventView::WatchFailed,
            Event::Changed(kind) => EventView::Changed(kind),
            Event::NotifierFailed => EventView::NotifierFailed,
            Event::NotifierClosed => EventView::NotifierClosed,
            Event::ListingFailed => EventView::ListingFailed,
            Event::EntryFailed => EventView::EntryFailed,
            Event::Entry(entry) => EventView::Entry(entry@),
            Event::ListingEnded => EventView::ListingEnded,
            Event::Completed(completion) => EventView::Completed(completion@),
            Event::Disposed => EventView::Disposed,
            Event::DisposalFailed => EventView::DisposalFailed,
        }
    }
}

/// What the driver is to do next. Each action but `Exit` is answered by an event.
#[derive(Clone, Debug, PartialEq, Eq)]
pub enum Action {
    /// Set up the watch on the directory, without its subdirectories.
    Watch,
    /// Open a fresh listing of the directory and report its first entry.
    List,
    /// Leave the reported entry untouched and report the next one.
    Skip(SkipReason),
    /// Run the command with these arguments, wait for it to end, and report how it ended.
    Run(Vec<String>),
    /// Move or delete the file that the command ran on.
    Dispose { outcome: Outcome, disposal: Disposal },
    /// Report the next entry of the listing.
    Next,
    /// Wait for the notifier and report what it says.
    Wait,
    /// End the process.
    Exit(Ending),
}

/// The mathematical content of an [`Action`].
pub enum ActionView {
    Watch,
    List,
    Skip(SkipReason),
    Run(Seq<Seq<char>>),
    Dispose { outcome: OutcomeView, disposal: DisposalView },
    Next,
    Wait,
    Exit(Ending),
}

impl View for Action {
    type V = ActionView;

    open spec fn view(&self) -> ActionView {
        match *self {
            Action::Watch => ActionView::Watch,
            Action::List => ActionView::List,
            Action::Skip(reason) => ActionView::Skip(reason),
            Action::Run(argv) => ActionView::Run(texts(argv@)),
            Action::Dispose { outcome, disposal } => ActionView::Dispose {
                outcome: outcome@,
                disposal: disposal@,
            },
            Action::Next => ActionView::Next,
            Action::Wait => ActionView::Wait,
            Action::Exit(ending) => ActionView::Exit(ending),
        }
    }
}

/// The engine's answer to an event.
#[derive(Clone, Debug, PartialEq, Eq)]
pub struct Step {
    /// The state after the event.
    pub next: State,
    /// What the driver is to do.
    pub action: Action,
}

/// The mathematical content of a [`Step`].
pub struct StepView {
    pub next: StateView,
    pub action: ActionView,
}

impl View for Step {
    type V = StepView;

    open spec fn view(&self) -> StepView {
        StepView { next: self.next@, action: self.action@ }
    }
}

/// Whether `event` answers the action that led to `state`.
pub open spec fn awaited(state: StateView, event: EventView) -> bool {
    match state {
        StateView::Starting => event is Started,
        StateView::Subscribing => event is Watching || event is WatchFailed,
        StateView::Listing => event is ListingFailed || event is EntryFailed || event is Entry
            || event is ListingEnded,
        StateView::Running(_) => event is Completed,
        StateView::Disposing => event is Disposed || event is DisposalFailed,
        StateView::Idle => event is Changed || event is NotifierFailed || event is NotifierClosed,
        StateView::Stopped => false,
    }
}

/// The engine's first answer: a configuration with a fault ends the engine
/// before any watch is set up; any other has the directory watched.
pub open spec fn start_of(settings: Settings) -> StepView {
    match settings.fault() {
        Some(fault) => StepView {
            next: StateView::Stopped,
            action: ActionView::Exit(Ending::Invalid(fault)),
        },
        None => StepView { next: StateView::Subscribing, action: ActionView::Watch },
    }
}

/// The answer to a directory entry: the command runs on a regular file whose
/// path matches the pattern, and any other entry is passed over.
pub open spec fn entry_step(settings: Settings, entry: Entry) -> StepView {
    match verdict_of(settings, entry) {
        VerdictView::Skip(reason) => StepView {
            next: StateView::Listing,
            action: ActionView::Skip(reason),
        },
        VerdictView::Run(argv) => StepView {
            next: StateView::Running(entry.names->0),
            action: ActionView::Run(argv),
        },
    }
}

/// The answer to the end of a command: the file is disposed of according to
/// the outcome.
pub open spec fn completion_step(settings: Settings, names: Names, completion: CompletionView) -> StepView {
    StepView {
        next: StateView::Disposing,
        action: ActionView::Dispose {
            outcome: outcome_of(completion),
            disposal: disposal_of(settings, names, outcome_of(completion)),
        },
    }
}

/// The step that begins a scan.
pub open spec fn scan_begins() -> StepView {
    StepView { next: StateView::Listing, action: ActionView::List }
}

/// The step that leaves the engine idle, waiting for the notifier.
pub open spec fn rests() -> StepView {
    StepView { next: StateView::Idle, action: ActionView::Wait }
}

/// The step that ends the engine.
pub open spec fn ends(ending: Ending) -> StepView {
    StepView { next: StateView::Stopped, action: ActionView::Exit(ending) }
}

/// The engine's answer to `event` in `state`: none for an event that is not
/// awaited there.
///
/// Once the watch is set up a first scan starts unasked. When idle, a creation
/// or modification starts a scan, any other change and any notifier error is
/// passed over, and the closing of the notifier ends the engine. A scan ends
/// with its listing, or early when the listing or one of its entries cannot be
/// read. A file that could not be moved or deleted does not stop the scan.
pub open spec fn step_of(settings: Settings, state: StateView, event: EventView) -> Option<StepView> {
    match (state, event) {
        (StateView::Starting, EventView::Started) => Some(start_of(settings)),
        (StateView::Subscribing, EventView::Watching) => Some(scan_begins()),
        (StateView::Subscribing, EventView::WatchFailed) => Some(ends(Ending::Unwatchable)),
        (StateView::Idle, EventView::Changed(kind)) => Some(
            if kind.triggers_scan() {
                scan_begins()
            } else {
                rests()
            },
        ),
        (StateView::Idle, EventView::NotifierFailed) => Some(rests()),
        (StateView::Idle, EventView::NotifierClosed) => Some(ends(Ending::Clean)),
        (StateView::Listing, EventView::Entry(entry)) => Some(entry_step(settings, entry)),
        (StateView::Listing, EventView::ListingFailed) => Some(rests()),
        (StateView::Listing, EventView::EntryFailed) => Some(rests()),
        (StateView::Listing, EventView::ListingEnded) => Some(rests()),
        (StateView::Running(names), EventView::Completed(completion)) => Some(
            completion_step(settings, names, completion),
        ),
        (StateView::Disposing, EventView::Disposed) => Some(
            StepView { next: StateView::Listing, action: ActionView::Next },
        ),
        (StateView::Disposing, EventView::DisposalFailed) => Some(
            StepView { next: StateView::Listing, action: ActionView::Next },
        ),
        _ => None,
    }
}

/// The state that the engine starts in.
pub fn initial() -> (state: State)
    ensures
        state@ == StateView::Starting,
{
    State::Starting
}

/// Answers the driver's first report.
pub fn start(config: &DirQDArgs) -> (step: Step)
    ensures
        step@ == start_of(config@),
{
    match config.validate() {
        Err(fault) => Step { next: State::Stopped, action: Action::Exit(Ending::Invalid(fault)) },
        Ok(_) => Step { next: State::Subscribing, action: Action::Watch },
    }
}

/// Answers a directory entry reported during a scan.
pub fn on_entry(config: &DirQDArgs, entry: FileEntry) -> (step: Step)
    ensures
        step@ == entry_step(config@, entry@),
{
    match examine(config, &entry) {
        Verdict::Skip(reason) => Step { next: State::Listing, action: Action::Skip(reason) },
        Verdict::Run(argv) => Step {
            next: State::Running(entry.names.unwrap()),
            action: Action::Run(argv),
        },
    }
}

/// Answers the end of the command that ran on the file named `names`.
pub fn on_completion(config: &DirQDArgs, names: &EntryNames, completion: Completion) -> (step: Step)
    ensures
        step@ == completion_step(config@, names@, completion@),
{
    let outcome = classify(completion);
    let disposal = dispose(config, names, &outcome);
    Step { next: State::Disposing, action: Action::Dispose { outcome, disposal } }
}

/// Answers `event` in `state`. An event that is not awaited in `state` gets
/// no answer.
pub fn step(config: &DirQDArgs, state: State, event: Event) -> (answered: Option<Step>)
    ensures
        answered is Some <==> awaited(state@, event@),
        match answered {
            Some(step) => Some(step@),
            None => None,
        } == step_of(config@, state@, event@),
{
    match state {
        State::Starting => match event {
            Event::Started => Some(start(config)),
            _ => None,
        },
        State::Subscribing => match event {
            Event::Watching => Some(Step { next: State::Listing, action: Action::List }),
            Event::WatchFailed => Some(
                Step { next: State::Stopped, action: Action::Exit(Ending::Unwatchable) },
            ),
            _ => None,
        },
        State::Idle => match event {
            Event::Changed(kind) => {
                if kind.starts_scan() {
                    Some(Step { next: State::Listing, action: Action::List })
                } else {
                    Some(Step { next: State::Idle, action: Action::Wait })
                }
            },
            Event::NotifierFailed => Some(Step { next: State::Idle, action: Action::Wait }),
            Event::NotifierClosed => Some(
                Step { next: State::Stopped, action: Action::Exit(Ending::Clean) },
            ),
            _ => None,
        },
        State::Listing => match event {
            Event::Entry(entry) => Some(on_entry(config, entry)),
            Event::ListingFailed => Some(Step { next: State::Idle, action: Action::Wait }),
            Event::EntryFailed => Some(Step { next: State::Idle, action: Action::Wait }),
            Event::ListingEnded => Some(Step { next: State::Idle, action: Action::Wait }),
            _ => None,
        },
        State::Running(names) => match event {
            Event::Completed(completion) => Some(on_completion(config, &names, completion)),
            _ => None,
        },
        State::Disposing => match event {
            Event::Disposed => Some(Step { next: State::Listing, action: Action::Next }),
            Event::DisposalFailed => Some(Step { next: State::Listing, action: Action::Next }),
            _ => None,
        },
        State::Stopped => None,
    }
}

} // verus!
