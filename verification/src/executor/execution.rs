use crate::executor::options::ExecutorOptions;
use crate::path::{FsPath, PathView};
use crate::planner::action::{all_plain, Action, ActionView, FsObjectKind};
use crate::planner::plan::{Plan, PlanView};
use vstd::prelude::*;

verus! {

/// One call on the filesystem. Each either succeeds or fails as the
/// operating system decides.
#[derive(Debug, PartialEq, Eq)]
pub enum FsOp {
    /// Create the file, or empty it where it is there already.
    CreateFile { path: FsPath },
    /// Create one directory. Its parent must be there.
    CreateDir { path: FsPath },
    /// Remove the file or symbolic link.
    RemoveFile { path: FsPath },
    /// Remove the file where something is at the path, and do nothing where
    /// nothing is.
    RemoveFileIfPresent { path: FsPath },
    /// Remove the directory, which must be empty.
    RemoveDir { path: FsPath },
    /// Rename `from` to `to`.
    Rename { from: FsPath, to: FsPath },
    /// Change nothing, and tell the operator that the change in place
    /// described here is not available yet.
    Skip { path: FsPath, description: String },
}

/// The mathematical value of an [`FsOp`].
pub enum FsOpView {
    CreateFile { path: PathView },
    CreateDir { path: PathView },
    RemoveFile { path: PathView },
    RemoveFileIfPresent { path: PathView },
    RemoveDir { path: PathView },
    Rename { from: PathView, to: PathView },
    Skip { path: PathView, description: Seq<char> },
}

impl View for FsOp {
    type V = FsOpView;

    open spec fn view(&self) -> FsOpView {
        match *self {
            FsOp::CreateFile { path } => FsOpView::CreateFile { path: path@ },
            FsOp::CreateDir { path } => FsOpView::CreateDir { path: path@ },
            FsOp::RemoveFile { path } => FsOpView::RemoveFile { path: path@ },
            FsOp::RemoveFileIfPresent { path } => FsOpView::RemoveFileIfPresent { path: path@ },
            FsOp::RemoveDir { path } => FsOpView::RemoveDir { path: path@ },
            FsOp::Rename { from, to } => FsOpView::Rename { from: from@, to: to@ },
            FsOp::Skip { path, description } => FsOpView::Skip {
                path: path@,
                description: description@,
            },
        }
    }
}

/// The values of a list of calls, in order.
pub open spec fn op_views(ops: Seq<FsOp>) -> Seq<FsOpView> {
    ops.map_values(|op: FsOp| op@)
}

/// Why a plan was not executed, or not to its end.
#[derive(Debug, Clone, Copy, PartialEq, Eq, Structural)]
pub enum ExecutionError {
    /// The plan holds an error.
    PlanHasErrors,
    /// The operator declined.
    Cancelled,
    /// The plan asks for the creation of a symbolic link.
    Unsupported,
}

/// What executing a plan comes to: the calls to make, in order, and how the
/// execution ends once every call has succeeded. The first call that fails
/// ends the execution with its own failure; calls made before it are not
/// undone.
///
/// The plan is not held against the filesystem again: where the filesystem
/// has changed since the snapshot was taken, a call may fail that the plan
/// did not expect to fail.
#[derive(Debug, PartialEq, Eq)]
pub struct Execution {
    pub ops: Vec<FsOp>,
    pub outcome: Result<(), ExecutionError>,
}

/// The mathematical value of an [`Execution`].
pub struct ExecutionView {
    pub ops: Seq<FsOpView>,
    pub outcome: Result<(), ExecutionError>,
}

impl View for Execution {
    type V = ExecutionView;

    open spec fn view(&self) -> ExecutionView {
        ExecutionView { ops: op_views(self.ops@), outcome: self.outcome }
    }
}

/// The calls that apply one action, or why it cannot be applied.
///
/// - A file or a directory is created by one call; a symbolic link cannot be
///   created.
/// - A move is one rename, after the removal of what may be at the
///   destination where the plan found something there.
/// - A directory is removed as a directory, anything else as a file.
/// - A change in place changes nothing.
pub open spec fn spec_apply(action: ActionView) -> Result<Seq<FsOpView>, ExecutionError> {
    match action {
        ActionView::Create { path, kind } => match kind {
            FsObjectKind::File => Ok(seq![FsOpView::CreateFile { path }]),
            FsObjectKind::Directory => Ok(seq![FsOpView::CreateDir { path }]),
            FsObjectKind::Symlink => Err(ExecutionError::Unsupported),
        },
        ActionView::Move { from, to, overwrite } => if overwrite {
            Ok(seq![FsOpView::RemoveFileIfPresent { path: to }, FsOpView::Rename { from, to }])
        } else {
            Ok(seq![FsOpView::Rename { from, to }])
        },
        ActionView::Delete { path, kind, .. } => match kind {
            FsObjectKind::Directory => Ok(seq![FsOpView::RemoveDir { path }]),
            _ => Ok(seq![FsOpView::RemoveFile { path }]),
        },
        ActionView::Modify { path, description } => Ok(seq![FsOpView::Skip { path, description }]),
    }
}

/// Applying actions in their order up to the first that cannot be applied.
pub open spec fn spec_run(actions: Seq<ActionView>) -> ExecutionView
    decreases actions.len(),
{
    if actions.len() == 0 {
        ExecutionView { ops: Seq::empty(), outcome: Ok(()) }
    } else {
        let before = spec_run(actions.drop_last());
        match before.outcome {
            Err(_) => before,
            Ok(_) => match spec_apply(actions.last()) {
                Ok(ops) => ExecutionView { ops: before.ops + ops, outcome: Ok(()) },
                Err(e) => ExecutionView { ops: before.ops, outcome: Err(e) },
            },
        }
    }
}

/// What executing `plan` comes to. A plan with an error is refused. Unless
/// `assume_yes` is set, so is any plan that the operator did not confirm.
/// Either way no call is made. Otherwise the actions are applied in their
/// order.
pub open spec fn spec_execute(plan: PlanView, options: ExecutorOptions, confirmed: bool)
    -> ExecutionView {
    if plan.errors.len() > 0 {
        ExecutionView { ops: Seq::empty(), outcome: Err(ExecutionError::PlanHasErrors) }
    } else if !options.assume_yes && !confirmed {
        ExecutionView { ops: Seq::empty(), outcome: Err(ExecutionError::Cancelled) }
    } else {
        spec_run(plan.actions)
    }
}

/// Once an action could not be applied, later actions add nothing.
pub proof fn lemma_run_stops(actions: Seq<ActionView>, n: int)
    requires
        0 <= n <= actions.len(),
        spec_run(actions.take(n)).outcome is Err,
    ensures
        spec_run(actions) == spec_run(actions.take(n)),
    decreases actions.len() - n,
{
    if n < actions.len() {
        assert(actions.take(n + 1).drop_last() =~= actions.take(n));
        lemma_run_stops(actions, n + 1);
    } else {
        assert(actions.take(n) =~= actions);
    }
}

/// Plain actions can all be applied.
pub proof fn lemma_run_plain(actions: Seq<ActionView>)
    requires
        all_plain(actions),
    ensures
        spec_run(actions).outcome is Ok,
    decreases actions.len(),
{
    if actions.len() > 0 {
        assert(actions.last().is_plain());
        let front = actions.drop_last();
        assert forall|i: int| 0 <= i < front.len() implies (#[trigger] front[i]).is_plain() by {
            assert(front[i] == actions[i]);
        }
        lemma_run_plain(front);
    }
}

/// A plan that holds an error is never executed: whatever the options and
/// whatever the operator answered, no call on the filesystem is made, and
/// the execution ends in failure.
pub proof fn law_plan_with_errors_changes_nothing(
    plan: PlanView,
    options: ExecutorOptions,
    confirmed: bool,
)
    requires
        plan.errors.len() > 0,
    ensures
        spec_execute(plan, options, confirmed).ops.len() == 0,
        spec_execute(plan, options, confirmed).outcome == Err::<(), ExecutionError>(
            ExecutionError::PlanHasErrors,
        ),
{
}

/// A plan that the operator declined is not executed unless `assume_yes` is
/// set: no call on the filesystem is made.
pub proof fn law_declined_plan_changes_nothing(plan: PlanView, options: ExecutorOptions)
    requires
        !options.assume_yes,
    ensures
        spec_execute(plan, options, false).ops.len() == 0,
        spec_execute(plan, options, false).outcome is Err,
{
}

impl ExecutionError {
    /// The failure in words.
    pub fn message(&self) -> (text: String)
        ensures
            text@ == match *self {
                ExecutionError::PlanHasErrors => "Cannot execute plan with errors"@,
                ExecutionError::Cancelled => "User cancel command"@,
                ExecutionError::Unsupported => "Symlink creation not supported yet"@,
            },
    {
        match self {
            ExecutionError::PlanHasErrors => "Cannot execute plan with errors".to_owned(),
            ExecutionError::Cancelled => "User cancel command".to_owned(),
            ExecutionError::Unsupported => "Symlink creation not supported yet".to_owned(),
        }
    }
}

/// Validates a plan, asks for the operator's word where it is needed, and
/// turns the plan's actions into calls on the filesystem.
#[derive(Debug)]
pub struct Executor;

impl Executor {
    /// Refuses a plan that holds an error.
    pub fn validate(plan: &Plan) -> (checked: Result<(), ExecutionError>)
        ensures
            checked == if plan@.errors.len() > 0 {
                Err::<(), ExecutionError>(ExecutionError::PlanHasErrors)
            } else {
                Ok::<(), ExecutionError>(())
            },
    {
        if plan.has_errors() {
            Err(ExecutionError::PlanHasErrors)
        } else {
            Ok(())
        }
    }

    /// Whether the operator has to be asked before `plan` is executed: the
    /// plan holds no error and `assume_yes` is not set.
    pub fn needs_confirmation(plan: &Plan, options: &ExecutorOptions) -> (ask: bool)
        ensures
            ask == (plan@.errors.len() == 0 && !options.assume_yes),
    {
        !plan.has_errors() && !options.assume_yes
    }

    /// Turns the operator's answer into leave to go on.
    pub fn confirm(answer: bool) -> (leave: Result<(), ExecutionError>)
        ensures
            leave == if answer {
                Ok::<(), ExecutionError>(())
            } else {
                Err::<(), ExecutionError>(ExecutionError::Cancelled)
            },
    {
        if answer {
            Ok(())
        } else {
            Err(ExecutionError::Cancelled)
        }
    }

    /// The calls that apply one action, or why it cannot be applied.
    pub fn apply(action: &Action) -> (applied: Result<Vec<FsOp>, ExecutionError>)
        ensures
            match spec_apply(action@) {
                Ok(ops) => applied is Ok && op_views(applied->Ok_0@) == ops,
                Err(e) => applied == Err::<Vec<FsOp>, ExecutionError>(e),
            },
    {
        let mut ops: Vec<FsOp> = Vec::new();
        match action {
            Action::Create { path, kind } => match kind {
                FsObjectKind::File => {
                    ops.push(FsOp::CreateFile { path: path.clone() });
                },
                FsObjectKind::Directory => {
                    ops.push(FsOp::CreateDir { path: path.clone() });
                },
                FsObjectKind::Symlink => {
                    return Err(ExecutionError::Unsupported);
                },
            },
            Action::Move { from, to, overwrite } => {
                if *overwrite {
                    ops.push(FsOp::RemoveFileIfPresent { path: to.clone() });
                }
                ops.push(FsOp::Rename { from: from.clone(), to: to.clone() });
            },
            Action::Delete { path, kind, .. } => match kind {
                FsObjectKind::Directory => {
                    ops.push(FsOp::RemoveDir { path: path.clone() });
                },
                _ => {
                    ops.push(FsOp::RemoveFile { path: path.clone() });
                },
            },
            Action::Modify { path, description } => {
                ops.push(FsOp::Skip { path: path.clone(), description: description.clone() });
            },
        }
        assert(op_views(ops@) =~= spec_apply(action@)->Ok_0);
        Ok(ops)
    }

    /// What executing `plan` comes to, given the operator's answer.
    /// `confirmed` is not consulted where `assume_yes` is set or the plan
    /// holds an error.
    pub fn execute(plan: &Plan, options: &ExecutorOptions, confirmed: bool) -> (execution:
        Execution)
        ensures
            execution@ == spec_execute(plan@, *options, confirmed),
            plan@.errors.len() > 0 ==> execution@.ops.len() == 0 && execution@.outcome is Err,
    {
        let mut ops: Vec<FsOp> = Vec::new();
        assert(op_views(ops@) =~= Seq::empty());
        if let Err(e) = Self::validate(plan) {
            return Execution { ops, outcome: Err(e) };
        }
        if !options.assume_yes {
            if let Err(e) = Self::confirm(confirmed) {
                return Execution { ops, outcome: Err(e) };
            }
        }
        let ghost actions = plan@.actions;
        let mut i: usize = 0;
        while i < plan.actions.len()
            invariant
                i <= plan.actions.len(),
                actions == plan@.actions,
                actions.len() == plan.actions.len(),
                plan@.errors.len() == 0,
                options.assume_yes || confirmed,
                spec_run(actions.take(i as int)) == (ExecutionView {
                    ops: op_views(ops@),
                    outcome: Ok(()),
                }),
            decreases plan.actions.len() - i,
        {
            proof {
                assert(actions.take(i as int + 1).drop_last() =~= actions.take(i as int));
                assert(actions.take(i as int + 1).last() == plan.actions@[i as int]@);
            }
            match Self::apply(&plan.actions[i]) {
                Ok(mut more) => {
                    let ghost before = op_views(ops@);
                    let ghost added = op_views(more@);
                    ops.append(&mut more);
                    assert(op_views(ops@) =~= before + added);
                },
                Err(e) => {
                    proof {
                        lemma_run_stops(actions, i as int + 1);
                    }
                    return Execution { ops, outcome: Err(e) };
                },
            }
            i += 1;
        }
        assert(actions.take(i as int) =~= actions);
        Execution { ops, outcome: Ok(()) }
    }
}

} // verus!
