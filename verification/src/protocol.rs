//! What the host tells the service, and what the service asks of the host.

use crate::calendar::{CalendarDate, DateView};
use vstd::prelude::*;

verus! {

/// The text of an optional string.
pub open spec fn text_of(value: Option<String>) -> Option<Seq<char>> {
    match value {
        Some(text) => Some(text@),
        None => None,
    }
}

/// The text of the error of a result without a value.
pub open spec fn error_of(result: Result<(), String>) -> Result<(), Seq<char>> {
    match result {
        Ok(_) => Ok(()),
        Err(error) => Err(error@),
    }
}

/// Something the host tells the service: the request to exit, or what came
/// of the action the service asked for last.
#[derive(Debug, PartialEq, Eq)]
pub enum Event {
    /// The host has been asked to exit.
    ExitRequested,
    /// The host holds the exit back until the service lets go.
    ExitPrevented,
    /// The two directories, each `None` where the host could not tell it.
    DirectoriesResolved { config_dir: Option<String>, data_dir: Option<String> },
    /// The backup directory is there, or the error that kept it from being made.
    DirectoryCreated { result: Result<(), String> },
    /// The local calendar date.
    DateRead { today: CalendarDate },
    /// Whether the database file is there.
    SourceProbed { exists: bool },
    /// The copy is written, or the error that stopped it.
    CopyFinished { result: Result<(), String> },
    /// Anything else the host may announce.
    Other,
}

/// Mathematical value of an [`Event`].
pub enum EventView {
    ExitRequested,
    ExitPrevented,
    DirectoriesResolved { config_dir: Option<Seq<char>>, data_dir: Option<Seq<char>> },
    DirectoryCreated { result: Result<(), Seq<char>> },
    DateRead { today: DateView },
    SourceProbed { exists: bool },
    CopyFinished { result: Result<(), Seq<char>> },
    Other,
}

impl View for Event {
    type V = EventView;

    open spec fn view(&self) -> EventView {
        match *self {
            Event::ExitRequested => EventView::ExitRequested,
            Event::ExitPrevented => EventView::ExitPrevented,
            Event::DirectoriesResolved { config_dir, data_dir } => EventView::DirectoriesResolved {
                config_dir: text_of(config_dir),
                data_dir: text_of(data_dir),
            },
            Event::DirectoryCreated { result } => EventView::DirectoryCreated {
                result: error_of(result),
            },
            Event::DateRead { today } => EventView::DateRead { today: today@ },
            Event::SourceProbed { exists } => EventView::SourceProbed { exists },
            Event::CopyFinished { result } => EventView::CopyFinished { result: error_of(result) },
            Event::Other => EventView::Other,
        }
    }
}

/// Something the service asks for.
#[derive(Debug, PartialEq, Eq)]
pub enum Action {
    /// Nothing to do: the host goes on as before.
    Continue,
    /// Hold the exit back until the service asks for it.
    PreventExit,
    /// Tell the configuration directory and the data directory.
    ResolveDirectories,
    /// Make the directory and its missing ancestors; one that is there already is no error.
    CreateDirectory { path: String },
    /// Tell the local calendar date.
    ReadDate,
    /// Tell whether there is a file at the path.
    ProbeSource { path: String },
    /// Copy the file, replacing what is at the destination.
    CopyFile { from: String, to: String },
    /// End the process with the status code.
    Exit { code: i32 },
}

/// Mathematical value of an [`Action`].
pub enum ActionView {
    Continue,
    PreventExit,
    ResolveDirectories,
    CreateDirectory { path: Seq<char> },
    ReadDate,
    ProbeSource { path: Seq<char> },
    CopyFile { from: Seq<char>, to: Seq<char> },
    Exit { code: int },
}

impl View for Action {
    type V = ActionView;

    open spec fn view(&self) -> ActionView {
        match *self {
            Action::Continue => ActionView::Continue,
            Action::PreventExit => ActionView::PreventExit,
            Action::ResolveDirectories => ActionView::ResolveDirectories,
            Action::CreateDirectory { path } => ActionView::CreateDirectory { path: path@ },
            Action::ReadDate => ActionView::ReadDate,
            Action::ProbeSource { path } => ActionView::ProbeSource { path: path@ },
            Action::CopyFile { from, to } => ActionView::CopyFile { from: from@, to: to@ },
            Action::Exit { code } => ActionView::Exit { code: code as int },
        }
    }
}

/// Something for the log: how the backup ended.
#[derive(Debug, PartialEq, Eq)]
pub enum Report {
    /// One of the two directories could not be told.
    ResolutionFailed,
    /// The backup directory could not be made.
    DirectoryCreateFailed { error: String },
    /// There is no database file at the path, so nothing was copied.
    SourceMissing { path: String },
    /// The database was copied to the path.
    BackedUp { path: String },
    /// The copy failed.
    CopyFailed { error: String },
}

/// Mathematical value of a [`Report`].
pub enum ReportView {
    ResolutionFailed,
    DirectoryCreateFailed { error: Seq<char> },
    SourceMissing { path: Seq<char> },
    BackedUp { path: Seq<char> },
    CopyFailed { error: Seq<char> },
}

impl ReportView {
    /// Whether the report tells of a failure, as against a backup taken or
    /// skipped for want of a database.
    pub open spec fn is_failure(self) -> bool {
        self is ResolutionFailed || self is DirectoryCreateFailed || self is CopyFailed
    }
}

impl View for Report {
    type V = ReportView;

    open spec fn view(&self) -> ReportView {
        match *self {
            Report::ResolutionFailed => ReportView::ResolutionFailed,
            Report::DirectoryCreateFailed { error } => ReportView::DirectoryCreateFailed {
                error: error@,
            },
            Report::SourceMissing { path } => ReportView::SourceMissing { path: path@ },
            Report::BackedUp { path } => ReportView::BackedUp { path: path@ },
            Report::CopyFailed { error } => ReportView::CopyFailed { error: error@ },
        }
    }
}

impl Report {
    /// Whether the report tells of a failure and belongs on the error stream.
    pub fn is_failure(&self) -> (failure: bool)
        ensures
            failure == self@.is_failure(),
    {
        match self {
            Report::ResolutionFailed => true,
            Report::DirectoryCreateFailed { .. } => true,
            Report::CopyFailed { .. } => true,
            Report::SourceMissing { .. } => false,
            Report::BackedUp { .. } => false,
        }
    }
}

/// What one step of the service comes to: a line for the log, if there is
/// one, and the action to perform next.
#[derive(Debug, PartialEq, Eq)]
pub struct Outcome {
    pub report: Option<Report>,
    pub action: Action,
}

/// Mathematical value of an [`Outcome`].
pub struct OutcomeView {
    pub report: Option<ReportView>,
    pub action: ActionView,
}

impl View for Outcome {
    type V = OutcomeView;

    open spec fn view(&self) -> OutcomeView {
        OutcomeView {
            report: match self.report {
                Some(report) => Some(report@),
                None => None,
            },
            action: self.action@,
        }
    }
}

impl OutcomeView {
    /// The outcome that asks for `action` and has nothing for the log.
    pub open spec fn act(action: ActionView) -> OutcomeView {
        OutcomeView { report: None, action }
    }

    /// The outcome that ends the process with status 0.
    pub open spec fn exit(report: Option<ReportView>) -> OutcomeView {
        OutcomeView { report, action: ActionView::Exit { code: 0 } }
    }
}

} // verus!
