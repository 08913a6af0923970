use crate::cli::args::{Cli, CliView, Command, CommandView};
use crate::executor::execution::{lemma_run_plain, spec_execute};
use crate::executor::options::ExecutorOptions;
use crate::path::{path_views, FsPath, PathView};
use crate::planner::mv::{law_mv_actions_are_plain, mv_planned, MvPlanner};
use crate::planner::plan::{Plan, PlanView};
use crate::planner::rm::{law_rm_actions_are_plain, rm_planned, RmPlanner};
use crate::planner::touch::{law_touch_actions_are_plain, touch_planned, TouchPlanner};
use crate::planner::traits::Planner;
use crate::printer::options::{PrinterOptions, PrinterOptionsView};
use crate::printer::pretty::{line_views, spec_print, Line, PrettyPrinter};
use crate::snapshot::{FsSnapshot, SnapshotView};
use vstd::prelude::*;

pub mod args;

verus! {

/// The paths that a command names, in the order in which it names them: the
/// paths of which a snapshot has to hold a probe.
pub open spec fn spec_paths(command: CommandView) -> Seq<PathView> {
    match command {
        CommandView::Touch { targets } => targets,
        CommandView::Mv { sources, target, .. } => sources.push(target),
        CommandView::Rm { targets, .. } => targets,
    }
}

/// The plan of a command run from `cwd`: that of its planner.
pub open spec fn spec_plan(
    command: CommandView,
    cwd: PathView,
    fs: SnapshotView,
    created_at: u64,
) -> PlanView {
    match command {
        CommandView::Touch { targets } => touch_planned(targets, cwd, fs, created_at),
        CommandView::Mv { sources, target, .. } => mv_planned(
            sources,
            target,
            cwd,
            fs,
            created_at,
        ),
        CommandView::Rm { targets, recursive, force } => rm_planned(
            targets,
            recursive,
            force,
            cwd,
            fs,
            created_at,
        ),
    }
}

/// How an invocation run from `cwd` has its plan shown.
pub open spec fn spec_printer_options(cli: CliView, cwd: PathView) -> PrinterOptionsView {
    PrinterOptionsView {
        summary_only: cli.summary_only,
        max_entries: match cli.max_entries {
            Some(n) => n as nat,
            None => 50,
        },
        cwd,
        use_color: !cli.no_color,
    }
}

/// The plan of a command asks for nothing that the executor cannot do: once
/// it holds no error and the operator agrees, or is not asked, turning it
/// into calls on the filesystem does not fail.
pub proof fn law_planned_commands_can_be_executed(
    command: CommandView,
    cwd: PathView,
    fs: SnapshotView,
    created_at: u64,
    options: ExecutorOptions,
    confirmed: bool,
)
    requires
        spec_plan(command, cwd, fs, created_at).errors.len() == 0,
        options.assume_yes || confirmed,
    ensures
        spec_execute(spec_plan(command, cwd, fs, created_at), options, confirmed).outcome is Ok,
{
    match command {
        CommandView::Touch { targets } => {
            law_touch_actions_are_plain(targets, cwd, fs, created_at);
        },
        CommandView::Mv { sources, target, .. } => {
            law_mv_actions_are_plain(sources, target, cwd, fs, created_at);
        },
        CommandView::Rm { targets, recursive, force } => {
            law_rm_actions_are_plain(targets, recursive, force, cwd, fs, created_at);
        },
    }
    lemma_run_plain(spec_plan(command, cwd, fs, created_at).actions);
}

/// What an invocation comes to before anything is asked or changed.
#[derive(Debug, PartialEq, Eq)]
pub struct Session {
    pub plan: Plan,
    /// The preview of the plan.
    pub preview: Vec<Line>,
    /// How the plan is to be executed.
    pub executor: ExecutorOptions,
}

/// A copy of a list of paths.
fn clone_paths(paths: &Vec<FsPath>) -> (copy: Vec<FsPath>)
    ensures
        path_views(copy@) == path_views(paths@),
{
    let mut copy: Vec<FsPath> = Vec::new();
    let mut i: usize = 0;
    while i < paths.len()
        invariant
            i <= paths.len(),
            copy@.len() == i,
            forall|k: int| 0 <= k < i ==> copy@[k]@ == paths@[k]@,
        decreases paths.len() - i,
    {
        copy.push(paths[i].clone());
        i += 1;
    }
    assert(path_views(copy@) =~= path_views(paths@));
    copy
}

impl Command {
    /// The paths that the command names, in the order in which it names
    /// them.
    pub fn paths(&self) -> (paths: Vec<FsPath>)
        ensures
            path_views(paths@) == spec_paths(self@),
    {
        match self {
            Command::Touch { targets } => clone_paths(targets),
            Command::Mv { sources, target, .. } => {
                let mut paths = clone_paths(sources);
                let ghost before = path_views(paths@);
                paths.push(target.clone());
                assert(path_views(paths@) =~= before.push(target@));
                paths
            },
            Command::Rm { targets, .. } => clone_paths(targets),
        }
    }

    /// The plan of the command, run from `cwd`.
    pub fn plan(&self, cwd: &FsPath, fs: &FsSnapshot, created_at: u64) -> (plan: Plan)
        ensures
            plan@ == spec_plan(self@, cwd@, fs@, created_at),
            plan@.is_consistent(),
    {
        match self {
            Command::Touch { targets } => TouchPlanner::new(clone_paths(targets), cwd.clone()).plan(
                fs,
                created_at,
            ),
            Command::Mv { sources, target, force } => MvPlanner::new(
                clone_paths(sources),
                target.clone(),
                *force,
                cwd.clone(),
            ).plan(fs, created_at),
            Command::Rm { targets, recursive, force } => RmPlanner::new(
                clone_paths(targets),
                *recursive,
                *force,
                cwd.clone(),
            ).plan(fs, created_at),
        }
    }
}

impl Cli {
    /// How the plan is shown: what the flags say, 50 entries where no limit
    /// is given, and paths relative to `cwd`.
    pub fn printer_options(&self, cwd: &FsPath) -> (options: PrinterOptions)
        ensures
            options@ == spec_printer_options(self@, cwd@),
    {
        PrinterOptions {
            summary_only: self.summary_only,
            max_entries: match self.max_entries {
                Some(n) => n,
                None => 50,
            },
            cwd: cwd.clone(),
            use_color: !self.no_color,
        }
    }

    /// How the plan is executed: without asking where `yes` is set.
    pub fn executor_options(&self) -> (options: ExecutorOptions)
        ensures
            options.assume_yes == self.yes,
    {
        ExecutorOptions { assume_yes: self.yes }
    }
}

/// Plans the command of an invocation run from `cwd` in the filesystem state
/// `fs`, and previews the plan. Nothing is asked and nothing is changed:
/// the plan is then to be handed to the executor with the options given
/// here.
pub fn run(cli: &Cli, cwd: &FsPath, fs: &FsSnapshot, created_at: u64) -> (session: Session)
    ensures
        session.plan@ == spec_plan(cli@.command, cwd@, fs@, created_at),
        session.plan@.is_consistent(),
        line_views(session.preview@) == spec_print(
            session.plan@,
            spec_printer_options(cli@, cwd@),
        ),
        session.executor.assume_yes == cli.yes,
{
    let plan = cli.command.plan(cwd, fs, created_at);
    let preview = PrettyPrinter::print(&plan, &cli.printer_options(cwd));
    Session { plan, preview, executor: cli.executor_options() }
}

} // verus!
