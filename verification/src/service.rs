//! The backup service: a state machine that the host drives, one event at a
//! time, from the request to exit to the end of the process.

use crate::calendar::{CalendarDate, DateView};
use crate::paths::{backup_dir, backup_dir_of, backup_path, backup_path_of, source_path, source_path_of};
use crate::protocol::{Action, ActionView, Event, EventView, Outcome, OutcomeView, Report, ReportView};
use vstd::prelude::*;

verus! {

/// How far the service has come.
#[derive(Debug, PartialEq, Eq)]
pub enum Stage {
    /// No exit has been requested.
    Idle,
    /// Asked the host to hold the exit back.
    Holding,
    /// Asked for the two directories.
    Resolving,
    /// Asked for the backup directory to be made.
    Creating { source: String, backup_dir: String },
    /// Asked for the date that names the backup.
    Dating { source: String, backup_dir: String },
    /// Asked whether the database file is there.
    Probing { source: String, target: String },
    /// Asked for the copy.
    Copying { target: String },
    /// Asked for the process to end.
    Finished,
}

/// Mathematical value of a [`Stage`].
pub enum StageView {
    Idle,
    Holding,
    Resolving,
    Creating { source: Seq<char>, backup_dir: Seq<char> },
    Dating { source: Seq<char>, backup_dir: Seq<char> },
    Probing { source: Seq<char>, target: Seq<char> },
    Copying { target: Seq<char> },
    Finished,
}

impl View for Stage {
    type V = StageView;

    open spec fn view(&self) -> StageView {
        match *self {
            Stage::Idle => StageView::Idle,
            Stage::Holding => StageView::Holding,
            Stage::Resolving => StageView::Resolving,
            Stage::Creating { source, backup_dir } => StageView::Creating {
                source: source@,
                backup_dir: backup_dir@,
            },
            Stage::Dating { source, backup_dir } => StageView::Dating {
                source: source@,
                backup_dir: backup_dir@,
            },
            Stage::Probing { source, target } => StageView::Probing {
                source: source@,
                target: target@,
            },
            Stage::Copying { target } => StageView::Copying { target: target@ },
            Stage::Finished => StageView::Finished,
        }
    }
}

/// The end of every shutdown: the process exits with status 0, whatever
/// `report` tells.
pub open spec fn finish(report: Option<ReportView>) -> (StageView, OutcomeView) {
    (StageView::Finished, OutcomeView::exit(report))
}

/// The step that asks for the backup directory, keeping the database's path
/// for later.
pub open spec fn directory_request(source: Seq<char>, backup_dir: Seq<char>) -> (
    StageView,
    OutcomeView,
) {
    (
        StageView::Creating { source, backup_dir },
        OutcomeView::act(ActionView::CreateDirectory { path: backup_dir }),
    )
}

/// The step that asks whether the database is there, keeping the backup's
/// path for later.
pub open spec fn probe_request(source: Seq<char>, target: Seq<char>) -> (StageView, OutcomeView) {
    (StageView::Probing { source, target }, OutcomeView::act(ActionView::ProbeSource { path: source }))
}

/// The stage that follows `stage` on `event`, and what the service asks for.
///
/// Until an exit is requested the service lets everything pass.  From then
/// on each answer of the host leads to the next request, and an answer that
/// tells of a failure, or that the service did not ask for, leads to the end
/// of the process at once.
pub open spec fn transition(stage: StageView, event: EventView) -> (StageView, OutcomeView) {
    match stage {
        StageView::Idle => match event {
            EventView::ExitRequested => (
                StageView::Holding,
                OutcomeView::act(ActionView::PreventExit),
            ),
            _ => (StageView::Idle, OutcomeView::act(ActionView::Continue)),
        },
        StageView::Holding => match event {
            EventView::ExitPrevented => (
                StageView::Resolving,
                OutcomeView::act(ActionView::ResolveDirectories),
            ),
            _ => finish(None),
        },
        StageView::Resolving => match event {
            EventView::DirectoriesResolved {
                config_dir: Some(config_dir),
                data_dir: Some(data_dir),
            } => directory_request(source_path_of(config_dir), backup_dir_of(data_dir)),
            EventView::DirectoriesResolved { .. } => finish(Some(ReportView::ResolutionFailed)),
            _ => finish(None),
        },
        StageView::Creating { source, backup_dir } => match event {
            EventView::DirectoryCreated { result: Ok(_) } => (
                StageView::Dating { source, backup_dir },
                OutcomeView::act(ActionView::ReadDate),
            ),
            EventView::DirectoryCreated { result: Err(error) } => finish(
                Some(ReportView::DirectoryCreateFailed { error }),
            ),
            _ => finish(None),
        },
        StageView::Dating { source, backup_dir } => match event {
            EventView::DateRead { today } => probe_request(
                source,
                backup_path_of(backup_dir, today),
            ),
            _ => finish(None),
        },
        StageView::Probing { source, target } => match event {
            EventView::SourceProbed { exists: true } => (
                StageView::Copying { target },
                OutcomeView::act(ActionView::CopyFile { from: source, to: target }),
            ),
            EventView::SourceProbed { exists: false } => finish(
                Some(ReportView::SourceMissing { path: source }),
            ),
            _ => finish(None),
        },
        StageView::Copying { target } => match event {
            EventView::CopyFinished { result: Ok(_) } => finish(
                Some(ReportView::BackedUp { path: target }),
            ),
            EventView::CopyFinished { result: Err(error) } => finish(
                Some(ReportView::CopyFailed { error }),
            ),
            _ => finish(None),
        },
        StageView::Finished => finish(None),
    }
}

/// Ends the shutdown: the process is to exit with status 0.
fn finished(report: Option<Report>) -> (step: (Stage, Outcome))
    ensures
        (step.0@, step.1@) == finish(
            match report {
                Some(report) => Some(report@),
                None => None,
            },
        ),
{
    (Stage::Finished, Outcome { report, action: Action::Exit { code: 0 } })
}

/// Takes a step that has nothing for the log.
fn proceed(stage: Stage, action: Action) -> (step: (Stage, Outcome))
    ensures
        (step.0@, step.1@) == (stage@, OutcomeView::act(action@)),
{
    (stage, Outcome { report: None, action })
}

/// The step that asks for the backup directory `backup_dir`, keeping the
/// database's path `source` for later.
pub fn request_directory(source: String, backup_dir: String) -> (step: (Stage, Outcome))
    ensures
        (step.0@, step.1@) == directory_request(source@, backup_dir@),
{
    let path = backup_dir.clone();
    proceed(Stage::Creating { source, backup_dir }, Action::CreateDirectory { path })
}

/// The step that asks whether the database is at `source`, keeping the
/// backup's path `target` for later.
pub fn request_probe(source: String, target: String) -> (step: (Stage, Outcome))
    ensures
        (step.0@, step.1@) == probe_request(source@, target@),
{
    let path = source.clone();
    proceed(Stage::Probing { source, target }, Action::ProbeSource { path })
}

/// Takes one step: the stage that follows `stage` on `event`, and what the
/// service asks for.
pub fn advance(stage: Stage, event: Event) -> (step: (Stage, Outcome))
    ensures
        (step.0@, step.1@) == transition(stage@, event@),
{
    match stage {
        Stage::Idle => match event {
            Event::ExitRequested => proceed(Stage::Holding, Action::PreventExit),
            _ => proceed(Stage::Idle, Action::Continue),
        },
        Stage::Holding => match event {
            Event::ExitPrevented => proceed(Stage::Resolving, Action::ResolveDirectories),
            _ => finished(None),
        },
        Stage::Resolving => match event {
            Event::DirectoriesResolved { config_dir: Some(config_dir), data_dir: Some(data_dir) } => {
                let source = source_path(config_dir.as_str());
                let backup_dir = backup_dir(data_dir.as_str());
                request_directory(source, backup_dir)
            },
            Event::DirectoriesResolved { .. } => finished(Some(Report::ResolutionFailed)),
            _ => finished(None),
        },
        Stage::Creating { source, backup_dir } => match event {
            Event::DirectoryCreated { result: Ok(_) } => proceed(
                Stage::Dating { source, backup_dir },
                Action::ReadDate,
            ),
            Event::DirectoryCreated { result: Err(error) } => finished(
                Some(Report::DirectoryCreateFailed { error }),
            ),
            _ => finished(None),
        },
        Stage::Dating { source, backup_dir } => match event {
            Event::DateRead { today } => {
                let target = backup_path(backup_dir.as_str(), &today);
                request_probe(source, target)
            },
            _ => finished(None),
        },
        Stage::Probing { source, target } => match event {
            Event::SourceProbed { exists: true } => {
                let to = target.clone();
                proceed(Stage::Copying { target }, Action::CopyFile { from: source, to })
            },
            Event::SourceProbed { exists: false } => finished(
                Some(Report::SourceMissing { path: source }),
            ),
            _ => finished(None),
        },
        Stage::Copying { target } => match event {
            Event::CopyFinished { result: Ok(_) } => finished(Some(Report::BackedUp { path: target })),
            Event::CopyFinished { result: Err(error) } => finished(
                Some(Report::CopyFailed { error }),
            ),
            _ => finished(None),
        },
        Stage::Finished => finished(None),
    }
}

/// What a step of the service that reads the clock itself comes to: the
/// step of [`transition`], and where that asks for the date, the step that
/// follows on a date that exists.
pub open spec fn stepped(
    stage: StageView,
    event: EventView,
    next: StageView,
    outcome: OutcomeView,
) -> bool {
    let first = transition(stage, event);
    if first.1.action is ReadDate {
        exists|today: DateView|
            today.valid() && (next, outcome) == #[trigger] transition(
                first.0,
                EventView::DateRead { today },
            )
    } else {
        (next, outcome) == first
    }
}

/// The service that backs the database up when the host is asked to exit.
///
/// The host hands each of its events to [`ExitBackupService::step`], performs
/// the action that comes back, and hands in what came of it as the next
/// event, until the action is to exit.
#[derive(Debug)]
pub struct ExitBackupService {
    stage: Stage,
}

impl View for ExitBackupService {
    type V = StageView;

    closed spec fn view(&self) -> StageView {
        self.stage@
    }
}

impl ExitBackupService {
    /// A service that waits for the request to exit.
    pub fn new() -> (service: ExitBackupService)
        ensures
            service@ == StageView::Idle,
    {
        ExitBackupService { stage: Stage::Idle }
    }

    /// How far the service has come.
    pub fn stage(&self) -> (stage: &Stage)
        ensures
            stage@ == self@,
    {
        &self.stage
    }

    /// Takes in `event` and tells what to do next.
    ///
    /// The date is the one thing the service finds out by itself: where the
    /// step asks for it, the service reads the local clock and goes on to the
    /// step after, so the host is never asked for the date.
    pub fn step(&mut self, event: Event) -> (outcome: Outcome)
        ensures
            stepped(old(self)@, event@, final(self)@, outcome@),
            outcome@.action !is ReadDate,
    {
        let mut stage = Stage::Finished;
        std::mem::swap(&mut self.stage, &mut stage);
        let (next, outcome) = advance(stage, event);
        let ghost first = (next@, outcome@);
        let (next, outcome) = match outcome.action {
            Action::ReadDate => {
                let today = CalendarDate::today();
                let step = advance(next, Event::DateRead { today });
                assert(stepped(old(self)@, event@, step.0@, step.1@)) by {
                    let answer = EventView::DateRead { today: today@ };
                    assert(today@.valid() && (step.0@, step.1@) == transition(first.0, answer));
                }
                step
            },
            _ => (next, outcome),
        };
        self.stage = next;
        outcome
    }
}

} // verus!
