//! What a whole shutdown comes to.
//!
//! The service sees the host only through events.  To say what its steps
//! achieve together, this module describes a host in the plainest terms (a
//! disk that maps paths to contents, and the answers the host gives) and
//! follows the service from the request to exit to the end of the process.
//! Reading the date counts among the host's answers here, whoever reads the
//! clock.  Nothing in this module runs: these are statements about
//! [`transition`], with proofs.

use crate::calendar::DateView;
use crate::paths::{
    backup_dir_of, backup_file_name_of, backup_path_of, lemma_backup_file_name_injective,
    source_path_of,
};
use crate::protocol::{ActionView, EventView, OutcomeView, ReportView};
use crate::service::{transition, StageView};
use vstd::prelude::*;

verus! {

/// What the host answers in the course of one shutdown.
pub struct Answers {
    /// The configuration directory, unless the host cannot tell it.
    pub config_dir: Option<Seq<char>>,
    /// The data directory, unless the host cannot tell it.
    pub data_dir: Option<Seq<char>>,
    /// The error that keeps the backup directory from being made, if any.
    pub create_error: Option<Seq<char>>,
    /// The local calendar date.
    pub today: DateView,
    /// The error that stops the copy, if any.
    pub copy_error: Option<Seq<char>>,
}

impl Answers {
    /// Both directories are known and nothing goes wrong.
    pub open spec fn sound(self) -> bool {
        &&& self.config_dir is Some
        &&& self.data_dir is Some
        &&& self.create_error is None
        &&& self.copy_error is None
    }

    /// Path of the database file.
    pub open spec fn source(self) -> Seq<char>
        recommends
            self.config_dir is Some,
    {
        source_path_of(self.config_dir->0)
    }

    /// Path of the backup directory.
    pub open spec fn backup_dir(self) -> Seq<char>
        recommends
            self.data_dir is Some,
    {
        backup_dir_of(self.data_dir->0)
    }

    /// Path of the backup taken today.
    pub open spec fn target(self) -> Seq<char>
        recommends
            self.data_dir is Some,
    {
        backup_path_of(self.backup_dir(), self.today)
    }
}

/// What the service can change or leave behind.
pub struct World {
    /// The files on disk: contents by path.
    pub files: Map<Seq<char>, Seq<u8>>,
    /// The directories on disk.
    pub directories: Set<Seq<char>>,
    /// Whether the host holds the exit back.
    pub exit_held: bool,
    /// What the host has been asked to do so far, in order.
    pub performed: Seq<ActionView>,
    /// The lines logged so far.
    pub log: Seq<ReportView>,
    /// The status the process ended with, once it has.
    pub exit_code: Option<int>,
}

impl World {
    /// The world with one more line in the log, if there is one.
    pub open spec fn logged(self, report: Option<ReportView>) -> World {
        match report {
            Some(report) => World { log: self.log.push(report), ..self },
            None => self,
        }
    }
}

/// The host performs `action`: the world afterwards, and the event that the
/// host hands to the service next.  There is none once the process has ended
/// or where the service asked for nothing.
///
/// A copy that fails leaves the disk as it was.
pub open spec fn perform(action: ActionView, answers: Answers, world: World) -> (
    World,
    Option<EventView>,
) {
    let world = World { performed: world.performed.push(action), ..world };
    match action {
        ActionView::Continue => (world, None),
        ActionView::PreventExit => (
            World { exit_held: true, ..world },
            Some(EventView::ExitPrevented),
        ),
        ActionView::ResolveDirectories => (
            world,
            Some(
                EventView::DirectoriesResolved {
                    config_dir: answers.config_dir,
                    data_dir: answers.data_dir,
                },
            ),
        ),
        ActionView::CreateDirectory { path } => match answers.create_error {
            None => (
                World { directories: world.directories.insert(path), ..world },
                Some(EventView::DirectoryCreated { result: Ok(()) }),
            ),
            Some(error) => (world, Some(EventView::DirectoryCreated { result: Err(error) })),
        },
        ActionView::ReadDate => (world, Some(EventView::DateRead { today: answers.today })),
        ActionView::ProbeSource { path } => (
            world,
            Some(EventView::SourceProbed { exists: world.files.contains_key(path) }),
        ),
        ActionView::CopyFile { from, to } => match answers.copy_error {
            None if world.files.contains_key(from) => (
                World { files: world.files.insert(to, world.files[from]), ..world },
                Some(EventView::CopyFinished { result: Ok(()) }),
            ),
            None => (world, Some(EventView::CopyFinished { result: Err(Seq::empty()) })),
            Some(error) => (world, Some(EventView::CopyFinished { result: Err(error) })),
        },
        ActionView::Exit { code } => (World { exit_code: Some(code), ..world }, None),
    }
}

/// The world after the service has taken in `event` at `stage` and the host
/// has performed what the service asked for, over and over until the host
/// has no answer left, for at most `steps` steps.
pub open spec fn run(
    stage: StageView,
    event: EventView,
    answers: Answers,
    world: World,
    steps: nat,
) -> World
    decreases steps,
{
    if steps == 0 {
        world
    } else {
        let (next, outcome) = transition(stage, event);
        let (after, reply) = perform(outcome.action, answers, world.logged(outcome.report));
        match reply {
            Some(reply) => run(next, reply, answers, after, (steps - 1) as nat),
            None => after,
        }
    }
}

/// No shutdown takes more steps than this.
pub open spec fn longest_shutdown() -> nat {
    7
}

/// The world after a request to exit has been dealt with.
pub open spec fn shutdown(answers: Answers, world: World) -> World {
    run(StageView::Idle, EventView::ExitRequested, answers, world, longest_shutdown())
}

/// How many answers of the host the service still waits for at most before
/// it asks for the process to end.
pub open spec fn answers_awaited(stage: StageView) -> nat {
    match stage {
        StageView::Idle => 7,
        StageView::Holding => 6,
        StageView::Resolving => 5,
        StageView::Creating { .. } => 4,
        StageView::Dating { .. } => 3,
        StageView::Probing { .. } => 2,
        StageView::Copying { .. } => 1,
        StageView::Finished => 0,
    }
}

/// Until an exit is requested the service asks for nothing and stays as it
/// is.
pub proof fn lemma_idle_until_requested(event: EventView)
    requires
        event !is ExitRequested,
    ensures
        transition(StageView::Idle, event) == (
            StageView::Idle,
            OutcomeView::act(ActionView::Continue),
        ),
{
}

/// Once an exit is requested, whatever the host answers, the service either
/// asks for the process to end with status 0 or comes one answer closer to
/// doing so: the exit cannot be put off for more than six answers.
pub proof fn lemma_every_answer_leads_to_exit(stage: StageView, event: EventView)
    requires
        stage !is Idle,
    ensures
        ({
            let (next, outcome) = transition(stage, event);
            if outcome.action is Exit {
                next is Finished && outcome.action == (ActionView::Exit { code: 0 })
            } else {
                next !is Idle && answers_awaited(next) < answers_awaited(stage)
            }
        }),
        answers_awaited(stage) <= 1 ==> transition(stage, event).1.action is Exit,
{
}

/// The service touches the disk only on these terms: it asks for the backup
/// directory only once both directories are known, and for a copy only when
/// the host has just told that the database is there; what it copies, and
/// where to, are the paths it asked about.
pub proof fn lemma_disk_is_touched_on_terms(stage: StageView, event: EventView)
    ensures
        ({
            let (next, outcome) = transition(stage, event);
            &&& outcome.action is CreateDirectory ==> {
                &&& stage is Resolving
                &&& event matches EventView::DirectoriesResolved {
                    config_dir: Some(config_dir),
                    data_dir: Some(data_dir),
                }
                &&& outcome.action == (ActionView::CreateDirectory { path: backup_dir_of(data_dir) })
            }
            &&& outcome.action is CopyFile ==> {
                &&& stage matches StageView::Probing { source, target }
                &&& event == (EventView::SourceProbed { exists: true })
                &&& outcome.action == (ActionView::CopyFile { from: source, to: target })
            }
        }),
{
}

/// What a shutdown asks of the host, in order, where the database is there
/// and nothing goes wrong.
pub open spec fn script(answers: Answers) -> Seq<ActionView>
    recommends
        answers.config_dir is Some,
        answers.data_dir is Some,
{
    seq![
        ActionView::PreventExit,
        ActionView::ResolveDirectories,
        ActionView::CreateDirectory { path: answers.backup_dir() },
        ActionView::ReadDate,
        ActionView::ProbeSource { path: answers.source() },
        ActionView::CopyFile { from: answers.source(), to: answers.target() },
    ]
}

/// How far into the [`script`] a shutdown gets before it ends the process:
/// to the end where the copy is at least tried, and no further than the first
/// answer that tells of a failure or of a missing database.
pub open spec fn steps_taken(answers: Answers, world: World) -> int {
    if answers.config_dir is None || answers.data_dir is None {
        2
    } else if answers.create_error is Some {
        3
    } else if !world.files.contains_key(answers.source()) {
        5
    } else {
        6
    }
}

/// Every shutdown follows the script as far as it gets and then ends the
/// process with status 0.  So the exit is held back before anything else,
/// the disk is touched only by the two requests of the script, the backup
/// directory is made before the copy, and the exit is the last thing asked.
pub proof fn lemma_shutdown_follows_script(answers: Answers, world: World)
    ensures
        ({
            let after = shutdown(answers, world);
            &&& after.performed == world.performed + script(answers).take(
                steps_taken(answers, world),
            ).push(ActionView::Exit { code: 0 })
            &&& after.exit_code == Some(0int)
            &&& after.exit_held
        }),
{
    reveal_with_fuel(run, 8);
    let after = shutdown(answers, world);
    let asked = script(answers).take(steps_taken(answers, world)).push(
        ActionView::Exit { code: 0 },
    );
    assert(after.performed =~= world.performed + asked);
}

/// Where the database is there and nothing goes wrong, the shutdown leaves
/// a backup under today's name in the backup directory, with the bytes that
/// the database held; no other file changes.
pub proof fn lemma_backup_holds_source(answers: Answers, world: World)
    requires
        answers.sound(),
        world.files.contains_key(answers.source()),
    ensures
        ({
            let after = shutdown(answers, world);
            &&& after.files == world.files.insert(answers.target(), world.files[answers.source()])
            &&& after.directories == world.directories.insert(answers.backup_dir())
            &&& after.log == world.log.push(ReportView::BackedUp { path: answers.target() })
            &&& after.exit_code == Some(0int)
        }),
{
    reveal_with_fuel(run, 8);
}

/// Where there is no database, the shutdown writes no file and ends the
/// process all the same; where it got as far as looking for the database, it
/// reports that the database is missing.
pub proof fn lemma_missing_source_copies_nothing(answers: Answers, world: World)
    requires
        answers.config_dir is Some,
        !world.files.contains_key(answers.source()),
    ensures
        ({
            let after = shutdown(answers, world);
            &&& after.files == world.files
            &&& after.exit_code == Some(0int)
            &&& answers.data_dir is Some && answers.create_error is None ==> after.log
                == world.log.push(ReportView::SourceMissing { path: answers.source() })
        }),
{
    reveal_with_fuel(run, 8);
}

/// Where a directory cannot be told, the shutdown asks for nothing but the
/// hold, the directories and the exit: it leaves the disk as it was and still
/// ends the process.
pub proof fn lemma_unresolved_directory_writes_nothing(answers: Answers, world: World)
    requires
        answers.config_dir is None || answers.data_dir is None,
    ensures
        ({
            let after = shutdown(answers, world);
            &&& after.performed == world.performed + seq![
                ActionView::PreventExit,
                ActionView::ResolveDirectories,
                ActionView::Exit { code: 0 },
            ]
            &&& after.files == world.files
            &&& after.directories == world.directories
            &&& after.log == world.log.push(ReportView::ResolutionFailed)
            &&& after.exit_code == Some(0int)
        }),
{
    lemma_shutdown_follows_script(answers, world);
    reveal_with_fuel(run, 8);
    let asked = seq![
        ActionView::PreventExit,
        ActionView::ResolveDirectories,
        ActionView::Exit { code: 0 },
    ];
    assert(script(answers).take(2).push(ActionView::Exit { code: 0 }) =~= asked);
}

/// Where the backup directory cannot be made, the shutdown logs the error,
/// leaves the disk as it was and still ends the process.
pub proof fn lemma_uncreated_directory_still_exits(answers: Answers, world: World)
    requires
        answers.config_dir is Some,
        answers.data_dir is Some,
        answers.create_error is Some,
    ensures
        ({
            let after = shutdown(answers, world);
            &&& after.files == world.files
            &&& after.directories == world.directories
            &&& after.log == world.log.push(
                ReportView::DirectoryCreateFailed { error: answers.create_error->0 },
            )
            &&& after.exit_code == Some(0int)
        }),
{
    reveal_with_fuel(run, 8);
}

/// Where the copy fails, the shutdown logs the error, leaves the files as
/// they were and the backup directory in place, and still ends the process.
pub proof fn lemma_failed_copy_still_exits(answers: Answers, world: World)
    requires
        answers.config_dir is Some,
        answers.data_dir is Some,
        answers.create_error is None,
        answers.copy_error is Some,
        world.files.contains_key(answers.source()),
    ensures
        ({
            let after = shutdown(answers, world);
            &&& after.files == world.files
            &&& after.directories == world.directories.insert(answers.backup_dir())
            &&& after.log == world.log.push(ReportView::CopyFailed { error: answers.copy_error->0 })
            &&& after.exit_code == Some(0int)
        }),
{
    reveal_with_fuel(run, 8);
}

/// Two shutdowns on one day leave one backup for that day, and it holds what
/// the database held at the second: the later copy replaces the earlier.
/// `rewritten` is what the application made of the database in between.
pub proof fn lemma_same_day_overwrites(answers: Answers, world: World, rewritten: Seq<u8>)
    requires
        answers.sound(),
        world.files.contains_key(answers.source()),
    ensures
        ({
            let first = shutdown(answers, world);
            let between = World {
                files: first.files.insert(answers.source(), rewritten),
                ..first
            };
            let second = shutdown(answers, between);
            &&& second.files[answers.target()] == rewritten
            &&& second.files.dom() == world.files.dom().insert(answers.target())
            &&& forall|path: Seq<char>|
                path != answers.target() && path != answers.source() ==> (
                #[trigger] second.files.contains_key(path) ==> second.files[path]
                    == world.files[path])
        }),
{
    lemma_backup_holds_source(answers, world);
    let first = shutdown(answers, world);
    let between = World { files: first.files.insert(answers.source(), rewritten), ..first };
    lemma_backup_holds_source(answers, between);
}

/// Shutdowns on two different days name their backups differently, in the
/// same directory, and both backups are there afterwards; the later one
/// holds what the database held.
pub proof fn lemma_different_days_keep_both(earlier: Answers, later: Answers, world: World)
    requires
        earlier.sound(),
        later.sound(),
        earlier.today.valid(),
        later.today.valid(),
        earlier.today != later.today,
        earlier.config_dir == later.config_dir,
        earlier.data_dir == later.data_dir,
        world.files.contains_key(earlier.source()),
    ensures
        ({
            let after = shutdown(later, shutdown(earlier, world));
            &&& backup_file_name_of(earlier.today) != backup_file_name_of(later.today)
            &&& earlier.target() == backup_path_of(earlier.backup_dir(), earlier.today)
            &&& later.target() == backup_path_of(earlier.backup_dir(), later.today)
            &&& after.files.contains_key(earlier.target())
            &&& after.files.contains_key(later.target())
            &&& after.files[later.target()] == shutdown(earlier, world).files[later.source()]
            &&& earlier.target() != later.target() ==> after.files[earlier.target()]
                == world.files[earlier.source()]
        }),
{
    if backup_file_name_of(earlier.today) == backup_file_name_of(later.today) {
        lemma_backup_file_name_injective(earlier.today, later.today);
    }
    lemma_backup_holds_source(earlier, world);
    let first = shutdown(earlier, world);
    lemma_backup_holds_source(later, first);
}

} // verus!
