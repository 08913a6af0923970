use crate::path::{path_views, FsPath, PathView};
use crate::planner::action::{all_plain, Action, ActionView, FsObjectKind};
use crate::planner::plan::{
    lemma_with_action_consistent, lemma_with_warning_consistent, warning_about, CommandKind, Plan,
    PlanMetadata, PlanMetadataView, PlanView, PlanWarning, PlanWarningView, WarningKind,
};
use crate::planner::traits::Planner;
use crate::snapshot::{FsSnapshot, SnapshotView};
use vstd::prelude::*;

verus! {

/// Planner for `touch`: creates each target that is not there yet.
#[derive(Debug, PartialEq, Eq)]
pub struct TouchPlanner {
    pub targets: Vec<FsPath>,
    pub cwd: FsPath,
}

/// The action that creates `target` as a regular file.
pub open spec fn touch_creation(target: PathView) -> ActionView {
    ActionView::Create { path: target, kind: FsObjectKind::File }
}

/// The warning that `target` is there already.
pub open spec fn touch_warning(target: PathView) -> PlanWarningView {
    warning_about(WarningKind::Overwrite, target, "Already existed"@)
}

/// The plan after one more target: a target that is there gets a warning and
/// no action, any other gets the action that creates it.
pub open spec fn touch_step(plan: PlanView, fs: SnapshotView, target: PathView) -> PlanView {
    if fs.is_present(target) {
        plan.with_warning(touch_warning(target))
    } else {
        plan.with_action(touch_creation(target), false)
    }
}

/// The plan after the given targets, taken in order.
pub open spec fn touch_all(start: PlanView, fs: SnapshotView, targets: Seq<PathView>)
    -> PlanView
    decreases targets.len(),
{
    if targets.len() == 0 {
        start
    } else {
        touch_step(touch_all(start, fs, targets.drop_last()), fs, targets.last())
    }
}

/// The plan of `touch` for the given targets.
pub open spec fn touch_planned(
    targets: Seq<PathView>,
    cwd: PathView,
    fs: SnapshotView,
    created_at: u64,
) -> PlanView {
    touch_all(
        PlanView::empty(
            PlanMetadataView { command: CommandKind::Touch, working_dir: cwd, created_at },
        ),
        fs,
        targets,
    )
}

/// The counters of a plan of `touch` agree with its lists.
pub proof fn law_touch_plan_consistent(
    targets: Seq<PathView>,
    cwd: PathView,
    fs: SnapshotView,
    created_at: u64,
)
    ensures
        touch_planned(targets, cwd, fs, created_at).is_consistent(),
    decreases targets.len(),
{
    if targets.len() > 0 {
        law_touch_plan_consistent(targets.drop_last(), cwd, fs, created_at);
        let before = touch_planned(targets.drop_last(), cwd, fs, created_at);
        lemma_with_warning_consistent(before, touch_warning(targets.last()));
        lemma_with_action_consistent(before, touch_creation(targets.last()), false);
    }
}

/// Every action of a plan of `touch` is plain.
pub proof fn law_touch_actions_are_plain(
    targets: Seq<PathView>,
    cwd: PathView,
    fs: SnapshotView,
    created_at: u64,
)
    ensures
        all_plain(touch_planned(targets, cwd, fs, created_at).actions),
    decreases targets.len(),
{
    if targets.len() > 0 {
        law_touch_actions_are_plain(targets.drop_last(), cwd, fs, created_at);
    }
}

/// The plan of `touch` holds, in the order of the targets, one creation of a
/// regular file for each target that is not there and one overwrite warning
/// for each target that is there, and nothing else: no error, and as many
/// files counted as created as there are creations.
pub proof fn law_touch_one_finding_per_target(
    targets: Seq<PathView>,
    cwd: PathView,
    fs: SnapshotView,
    created_at: u64,
)
    ensures
        ({
            let plan = touch_planned(targets, cwd, fs, created_at);
            let absent = targets.filter(|t: PathView| !fs.is_present(t));
            let present = targets.filter(|t: PathView| fs.is_present(t));
            &&& plan.actions == absent.map_values(|t: PathView| touch_creation(t))
            &&& plan.warnings == present.map_values(|t: PathView| touch_warning(t))
            &&& plan.errors.len() == 0
            &&& plan.summary.files_created == absent.len()
            &&& plan.summary.warnings == present.len()
            &&& plan.actions.len() + plan.warnings.len() == targets.len()
        }),
    decreases targets.len(),
{
    reveal(Seq::filter);
    let plan = touch_planned(targets, cwd, fs, created_at);
    let is_absent = |t: PathView| !fs.is_present(t);
    let is_present = |t: PathView| fs.is_present(t);
    let absent = targets.filter(is_absent);
    let present = targets.filter(is_present);
    let creation = |t: PathView| touch_creation(t);
    let warning = |t: PathView| touch_warning(t);
    if targets.len() == 0 {
        assert(plan.actions =~= absent.map_values(creation));
        assert(plan.warnings =~= present.map_values(warning));
    } else {
        let front = targets.drop_last();
        law_touch_one_finding_per_target(front, cwd, fs, created_at);
        let before = touch_planned(front, cwd, fs, created_at);
        assert(plan == touch_step(before, fs, targets.last()));
        if fs.is_present(targets.last()) {
            assert(present == front.filter(is_present).push(targets.last()));
            assert(absent == front.filter(is_absent));
            assert(plan.warnings =~= present.map_values(warning));
        } else {
            assert(absent == front.filter(is_absent).push(targets.last()));
            assert(present == front.filter(is_present));
            assert(plan.actions =~= absent.map_values(creation));
        }
    }
}

impl TouchPlanner {
    /// The planner of `touch` for `targets`, run from `cwd`.
    pub fn new(targets: Vec<FsPath>, cwd: FsPath) -> (planner: TouchPlanner)
        ensures
            planner.targets == targets,
            planner.cwd == cwd,
    {
        TouchPlanner { targets, cwd }
    }
}

impl Planner for TouchPlanner {
    open spec fn planned(&self, fs: SnapshotView, created_at: u64) -> PlanView {
        touch_planned(path_views(self.targets@), self.cwd@, fs, created_at)
    }

    fn plan(&self, fs: &FsSnapshot, created_at: u64) -> (plan: Plan) {
        let mut plan = Plan::new(
            PlanMetadata { command: CommandKind::Touch, working_dir: self.cwd.clone(), created_at },
        );
        let ghost start = plan@;
        let ghost targets = path_views(self.targets@);
        let mut i: usize = 0;
        while i < self.targets.len()
            invariant
                i <= self.targets.len(),
                targets == path_views(self.targets@),
                plan@ == touch_all(start, fs@, targets.take(i as int)),
                plan@.is_consistent(),
            decreases self.targets.len() - i,
        {
            let target = &self.targets[i];
            proof {
                assert(targets.take(i as int + 1).drop_last() =~= targets.take(i as int));
                assert(targets.take(i as int + 1).last() == target@);
            }
            if fs.is_present(target) {
                plan.push_warning(
                    PlanWarning::about(WarningKind::Overwrite, target, "Already existed"),
                );
            } else {
                plan.push_action(
                    Action::Create { path: target.clone(), kind: FsObjectKind::File },
                    false,
                );
            }
            i += 1;
        }
        assert(targets.take(i as int) =~= targets);
        plan
    }
}

} // verus!
