use crate::path::{is_inside, lemma_join_inside, path_views, FsPath, PathView};
use crate::planner::action::{
    all_plain, count_deletions_of, Action, ActionView, FsObjectKind,
};
use crate::planner::plan::{
    error_about, lemma_with_action_consistent, warning_about, CommandKind, ErrorKind, Plan,
    PlanError, PlanMetadata, PlanMetadataView, PlanView, PlanWarning, PlanWarningView,
    WarningKind,
};
use crate::planner::traits::Planner;
use crate::snapshot::{
    count_kind, is_contents_first, walk_views, FsSnapshot, SnapshotView, WalkEntry, WalkEntryView,
};
use vstd::prelude::*;

verus! {

/// Planner for `rm`: removes each target, a directory with all that it holds
/// where `recursive` is set.
#[derive(Debug, PartialEq, Eq)]
pub struct RmPlanner {
    pub targets: Vec<FsPath>,
    pub recursive: bool,
    pub force: bool,
    pub cwd: FsPath,
}

/// The action that removes the one object at `path`.
pub open spec fn rm_deletion(path: PathView, kind: FsObjectKind) -> ActionView {
    ActionView::Delete { path, kind, recursive: false }
}

/// The warning that a directory is removed with all that it holds.
pub open spec fn rm_recursive_warning(target: PathView) -> PlanWarningView {
    warning_about(WarningKind::RecursiveDelete, target, "Recursive directory deletion"@)
}

/// The warning that the metadata of a target could not be read.
pub open spec fn rm_unreadable_warning(target: PathView) -> PlanWarningView {
    warning_about(WarningKind::PermissionRisk, target, "Could not read metadata"@)
}

/// The action that removes one entry of a walk below `root`.
pub open spec fn rm_entry_deletion(root: PathView, entry: WalkEntryView) -> ActionView {
    rm_deletion(root + entry.rel, entry.kind)
}

/// The plan after one removal for each entry of a walk below `root`, in the
/// order of the walk.
pub open spec fn rm_walk(plan: PlanView, root: PathView, walk: Seq<WalkEntryView>)
    -> PlanView
    decreases walk.len(),
{
    if walk.len() == 0 {
        plan
    } else {
        rm_walk(plan, root, walk.drop_last()).with_action(
            rm_entry_deletion(root, walk.last()),
            false,
        )
    }
}

/// The plan after one more target.
///
/// - Nothing there: an error, or nothing at all under `force`.
/// - Metadata unreadable: an error, or under `force` a warning and the
///   removal of the target as a file.
/// - A directory under `recursive`: a warning, then one removal for each
///   entry of its contents-first walk.
/// - A directory otherwise: its removal where it was read and found empty,
///   or could not be read under `force`; an error in every other case.
/// - Anything else: its removal.
pub open spec fn rm_step(
    plan: PlanView,
    fs: SnapshotView,
    target: PathView,
    recursive: bool,
    force: bool,
) -> PlanView {
    let probe = fs.probe(target);
    if !probe.exists {
        if force {
            plan
        } else {
            plan.with_error(error_about(ErrorKind::NotFound, target, "No such file or directory"@))
        }
    } else {
        match probe.metadata {
            None => if force {
                plan.with_warning(rm_unreadable_warning(target)).with_action(
                    rm_deletion(target, FsObjectKind::File),
                    false,
                )
            } else {
                plan.with_error(
                    error_about(ErrorKind::PermissionDenied, target, "Permission denied"@),
                )
            },
            Some(FsObjectKind::Directory) => if recursive {
                rm_walk(
                    plan.with_warning(rm_recursive_warning(target)),
                    target,
                    probe.walk_contents_first,
                )
            } else if probe.has_entries == Some(false) || (probe.has_entries is None && force) {
                plan.with_action(rm_deletion(target, FsObjectKind::Directory), false)
            } else {
                plan.with_error(
                    error_about(ErrorKind::Unsupported, target, "Is a directory (use -r)"@),
                )
            },
            Some(kind) => plan.with_action(rm_deletion(target, kind), false),
        }
    }
}

/// The plan after the given targets, taken in order.
pub open spec fn rm_all(
    start: PlanView,
    fs: SnapshotView,
    targets: Seq<PathView>,
    recursive: bool,
    force: bool,
) -> PlanView
    decreases targets.len(),
{
    if targets.len() == 0 {
        start
    } else {
        rm_step(
            rm_all(start, fs, targets.drop_last(), recursive, force),
            fs,
            targets.last(),
            recursive,
            force,
        )
    }
}

/// The plan of `rm` for the given targets.
pub open spec fn rm_planned(
    targets: Seq<PathView>,
    recursive: bool,
    force: bool,
    cwd: PathView,
    fs: SnapshotView,
    created_at: u64,
) -> PlanView {
    rm_all(
        PlanView::empty(
            PlanMetadataView { command: CommandKind::Rm, working_dir: cwd, created_at },
        ),
        fs,
        targets,
        recursive,
        force,
    )
}

/// The removals of a walk are appended to the actions in the order of the
/// walk; warnings and errors stay as they are.
pub proof fn lemma_rm_walk(plan: PlanView, root: PathView, walk: Seq<WalkEntryView>)
    ensures
        rm_walk(plan, root, walk).actions == plan.actions + walk.map_values(
            |e: WalkEntryView| rm_entry_deletion(root, e),
        ),
        rm_walk(plan, root, walk).warnings == plan.warnings,
        rm_walk(plan, root, walk).errors == plan.errors,
        rm_walk(plan, root, walk).metadata == plan.metadata,
    decreases walk.len(),
{
    let removal = |e: WalkEntryView| rm_entry_deletion(root, e);
    if walk.len() == 0 {
        assert(plan.actions =~= plan.actions + walk.map_values(removal));
    } else {
        lemma_rm_walk(plan, root, walk.drop_last());
        assert(rm_walk(plan, root, walk).actions =~= plan.actions + walk.map_values(removal));
    }
}

/// The removals of a walk keep the counters in agreement with the lists.
pub proof fn lemma_rm_walk_consistent(plan: PlanView, root: PathView, walk: Seq<WalkEntryView>)
    requires
        plan.is_consistent(),
    ensures
        rm_walk(plan, root, walk).is_consistent(),
    decreases walk.len(),
{
    if walk.len() > 0 {
        lemma_rm_walk_consistent(plan, root, walk.drop_last());
        lemma_with_action_consistent(
            rm_walk(plan, root, walk.drop_last()),
            rm_entry_deletion(root, walk.last()),
            false,
        );
    }
}

/// One more target keeps the counters in agreement with the lists.
pub proof fn lemma_rm_step_consistent(
    plan: PlanView,
    fs: SnapshotView,
    target: PathView,
    recursive: bool,
    force: bool,
)
    requires
        plan.is_consistent(),
    ensures
        rm_step(plan, fs, target, recursive, force).is_consistent(),
{
    let probe = fs.probe(target);
    let unreadable = plan.with_warning(rm_unreadable_warning(target));
    let warned = plan.with_warning(rm_recursive_warning(target));
    lemma_with_action_consistent(unreadable, rm_deletion(target, FsObjectKind::File), false);
    lemma_rm_walk_consistent(warned, target, probe.walk_contents_first);
    lemma_with_action_consistent(plan, rm_deletion(target, FsObjectKind::Directory), false);
    match probe.metadata {
        Some(kind) => {
            lemma_with_action_consistent(plan, rm_deletion(target, kind), false);
        },
        None => {},
    }
}

/// The counters of a plan of `rm` agree with its lists.
pub proof fn law_rm_plan_consistent(
    targets: Seq<PathView>,
    recursive: bool,
    force: bool,
    cwd: PathView,
    fs: SnapshotView,
    created_at: u64,
)
    ensures
        rm_planned(targets, recursive, force, cwd, fs, created_at).is_consistent(),
    decreases targets.len(),
{
    if targets.len() > 0 {
        law_rm_plan_consistent(targets.drop_last(), recursive, force, cwd, fs, created_at);
        lemma_rm_step_consistent(
            rm_planned(targets.drop_last(), recursive, force, cwd, fs, created_at),
            fs,
            targets.last(),
            recursive,
            force,
        );
    }
}

/// One more target adds plain actions only.
pub proof fn lemma_rm_step_plain(
    plan: PlanView,
    fs: SnapshotView,
    target: PathView,
    recursive: bool,
    force: bool,
)
    requires
        all_plain(plan.actions),
    ensures
        all_plain(rm_step(plan, fs, target, recursive, force).actions),
{
    let probe = fs.probe(target);
    let warned = plan.with_warning(rm_recursive_warning(target));
    lemma_rm_walk(warned, target, probe.walk_contents_first);
}

/// Every action of a plan of `rm` is plain. So a tree is removed entry by
/// entry: no removal is left to remove a whole tree by itself.
pub proof fn law_rm_actions_are_plain(
    targets: Seq<PathView>,
    recursive: bool,
    force: bool,
    cwd: PathView,
    fs: SnapshotView,
    created_at: u64,
)
    ensures
        all_plain(rm_planned(targets, recursive, force, cwd, fs, created_at).actions),
    decreases targets.len(),
{
    if targets.len() > 0 {
        law_rm_actions_are_plain(targets.drop_last(), recursive, force, cwd, fs, created_at);
        lemma_rm_step_plain(
            rm_planned(targets.drop_last(), recursive, force, cwd, fs, created_at),
            fs,
            targets.last(),
            recursive,
            force,
        );
    }
}

/// Among the removals of a walk there are as many of each kind as the walk
/// has entries of that kind.
pub proof fn lemma_rm_walk_counts(root: PathView, walk: Seq<WalkEntryView>, kind: FsObjectKind)
    ensures
        count_deletions_of(walk.map_values(|e: WalkEntryView| rm_entry_deletion(root, e)), kind)
            == count_kind(walk, kind),
    decreases walk.len(),
{
    let removal = |e: WalkEntryView| rm_entry_deletion(root, e);
    if walk.len() > 0 {
        lemma_rm_walk_counts(root, walk.drop_last(), kind);
        assert(walk.map_values(removal).drop_last() =~= walk.drop_last().map_values(removal));
    }
}

/// `rm` of one directory with `recursive` set plans exactly one removal for
/// each entry of the directory's contents-first walk, in that order, with one
/// warning and no error. So there are as many removals of each kind as the
/// tree holds entries of that kind, and wherever the walk lists the contents
/// of each directory before the directory, the removal of every entry comes
/// before the removal of each directory that holds it.
pub proof fn law_rm_recursive_contents_first(
    target: PathView,
    force: bool,
    cwd: PathView,
    fs: SnapshotView,
    created_at: u64,
)
    requires
        fs.probe(target).exists,
        fs.probe(target).metadata == Some(FsObjectKind::Directory),
    ensures
        ({
            let plan = rm_planned(seq![target], true, force, cwd, fs, created_at);
            let walk = fs.probe(target).walk_contents_first;
            &&& plan.actions == walk.map_values(|e: WalkEntryView| rm_entry_deletion(target, e))
            &&& plan.errors.len() == 0
            &&& plan.warnings == seq![rm_recursive_warning(target)]
            &&& forall|kind: FsObjectKind|
                count_deletions_of(plan.actions, kind) == count_kind(walk, kind)
            &&& is_contents_first(walk) ==> forall|d: int, e: int|
                0 <= d < plan.actions.len() && 0 <= e < plan.actions.len()
                    && (#[trigger] plan.actions[d]).deletes_dir() && is_inside(
                    (#[trigger] plan.actions[e])->Delete_path,
                    plan.actions[d]->Delete_path,
                ) ==> e < d
        }),
{
    let start = PlanView::empty(
        PlanMetadataView { command: CommandKind::Rm, working_dir: cwd, created_at },
    );
    let plan = rm_planned(seq![target], true, force, cwd, fs, created_at);
    let walk = fs.probe(target).walk_contents_first;
    let warned = start.with_warning(rm_recursive_warning(target));
    assert(seq![target].drop_last() =~= Seq::<PathView>::empty());
    assert(seq![target].last() == target);
    assert(rm_all(start, fs, seq![target].drop_last(), true, force) == start);
    assert(plan == rm_walk(warned, target, walk));
    lemma_rm_walk(warned, target, walk);
    let removal = |e: WalkEntryView| rm_entry_deletion(target, e);
    assert(plan.actions =~= walk.map_values(removal));
    assert(plan.warnings =~= seq![rm_recursive_warning(target)]);
    assert forall|kind: FsObjectKind|
        count_deletions_of(plan.actions, kind) == count_kind(walk, kind) by {
        lemma_rm_walk_counts(target, walk, kind);
    }
    if is_contents_first(walk) {
        assert forall|d: int, e: int|
            0 <= d < plan.actions.len() && 0 <= e < plan.actions.len()
                && (#[trigger] plan.actions[d]).deletes_dir() && is_inside(
                (#[trigger] plan.actions[e])->Delete_path,
                plan.actions[d]->Delete_path,
            ) implies e < d by {
            lemma_join_inside(target, walk[e].rel, walk[d].rel);
        }
    }
}

/// `rm` of one directory without `recursive` plans nothing but one error
/// where the directory holds an entry, and nothing but the removal of the
/// directory where it is empty.
pub proof fn law_rm_directory_without_recursive(
    target: PathView,
    force: bool,
    cwd: PathView,
    fs: SnapshotView,
    created_at: u64,
)
    requires
        fs.probe(target).exists,
        fs.probe(target).metadata == Some(FsObjectKind::Directory),
    ensures
        ({
            let plan = rm_planned(seq![target], false, force, cwd, fs, created_at);
            &&& fs.probe(target).has_entries == Some(true) ==> {
                &&& plan.actions.len() == 0
                &&& plan.errors == seq![
                    error_about(ErrorKind::Unsupported, target, "Is a directory (use -r)"@),
                ]
            }
            &&& fs.probe(target).has_entries == Some(false) ==> {
                &&& plan.actions == seq![rm_deletion(target, FsObjectKind::Directory)]
                &&& plan.errors.len() == 0
                &&& plan.summary.dirs_deleted == 1
            }
        }),
{
    let start = PlanView::empty(
        PlanMetadataView { command: CommandKind::Rm, working_dir: cwd, created_at },
    );
    let plan = rm_planned(seq![target], false, force, cwd, fs, created_at);
    assert(seq![target].drop_last() =~= Seq::<PathView>::empty());
    assert(seq![target].last() == target);
    assert(rm_all(start, fs, seq![target].drop_last(), false, force) == start);
    assert(plan == rm_step(start, fs, target, false, force));
    if fs.probe(target).has_entries == Some(true) {
        assert(plan.errors =~= seq![
            error_about(ErrorKind::Unsupported, target, "Is a directory (use -r)"@),
        ]);
    }
    if fs.probe(target).has_entries == Some(false) {
        assert(plan.actions =~= seq![rm_deletion(target, FsObjectKind::Directory)]);
    }
}

impl RmPlanner {
    /// The planner of `rm` for `targets`, run from `cwd`.
    pub fn new(targets: Vec<FsPath>, recursive: bool, force: bool, cwd: FsPath) -> (planner:
        RmPlanner)
        ensures
            planner.targets == targets,
            planner.recursive == recursive,
            planner.force == force,
            planner.cwd == cwd,
    {
        RmPlanner { targets, recursive, force, cwd }
    }

    /// Appends one removal for each entry of a walk below `root`.
    fn plan_walk(plan: &mut Plan, root: &FsPath, walk: &Vec<WalkEntry>)
        requires
            old(plan)@.is_consistent(),
        ensures
            final(plan)@ == rm_walk(old(plan)@, root@, walk_views(walk@)),
            final(plan)@.is_consistent(),
    {
        let ghost entries = walk_views(walk@);
        let mut j: usize = 0;
        while j < walk.len()
            invariant
                j <= walk.len(),
                entries == walk_views(walk@),
                plan@ == rm_walk(old(plan)@, root@, entries.take(j as int)),
                plan@.is_consistent(),
            decreases walk.len() - j,
        {
            let entry = &walk[j];
            proof {
                assert(entries.take(j as int + 1).drop_last() =~= entries.take(j as int));
                assert(entries.take(j as int + 1).last() == entry@);
            }
            plan.push_action(
                Action::Delete { path: root.join(&entry.rel), kind: entry.kind, recursive: false },
                false,
            );
            j += 1;
        }
        assert(entries.take(j as int) =~= entries);
    }

    /// Plans the removal of one target.
    fn plan_target(&self, plan: &mut Plan, fs: &FsSnapshot, target: &FsPath)
        requires
            old(plan)@.is_consistent(),
        ensures
            final(plan)@ == rm_step(old(plan)@, fs@, target@, self.recursive, self.force),
            final(plan)@.is_consistent(),
    {
        let probe = match fs.probe(target) {
            Some(probe) if probe.exists => probe,
            _ => {
                if !self.force {
                    plan.push_error(
                        PlanError::about(ErrorKind::NotFound, target, "No such file or directory"),
                    );
                }
                return ;
            },
        };
        match probe.metadata {
            None => {
                if self.force {
                    plan.push_warning(
                        PlanWarning::about(
                            WarningKind::PermissionRisk,
                            target,
                            "Could not read metadata",
                        ),
                    );
                    plan.push_action(
                        Action::Delete {
                            path: target.clone(),
                            kind: FsObjectKind::File,
                            recursive: false,
                        },
                        false,
                    );
                } else {
                    plan.push_error(
                        PlanError::about(ErrorKind::PermissionDenied, target, "Permission denied"),
                    );
                }
            },
            Some(FsObjectKind::Directory) => {
                if self.recursive {
                    plan.push_warning(
                        PlanWarning::about(
                            WarningKind::RecursiveDelete,
                            target,
                            "Recursive directory deletion",
                        ),
                    );
                    Self::plan_walk(plan, target, &probe.walk_contents_first);
                } else {
                    let empty = match probe.has_entries {
                        Some(has_entries) => !has_entries,
                        None => self.force,
                    };
                    if empty {
                        plan.push_action(
                            Action::Delete {
                                path: target.clone(),
                                kind: FsObjectKind::Directory,
                                recursive: false,
                            },
                            false,
                        );
                    } else {
                        plan.push_error(
                            PlanError::about(
                                ErrorKind::Unsupported,
                                target,
                                "Is a directory (use -r)",
                            ),
                        );
                    }
                }
            },
            Some(kind) => {
                plan.push_action(
                    Action::Delete { path: target.clone(), kind, recursive: false },
                    false,
                );
            },
        }
    }
}

impl Planner for RmPlanner {
    open spec fn planned(&self, fs: SnapshotView, created_at: u64) -> PlanView {
        rm_planned(path_views(self.targets@), self.recursive, self.force, self.cwd@, fs, created_at)
    }

    fn plan(&self, fs: &FsSnapshot, created_at: u64) -> (plan: Plan) {
        let mut plan = Plan::new(
            PlanMetadata { command: CommandKind::Rm, working_dir: self.cwd.clone(), created_at },
        );
        let ghost start = plan@;
        let ghost targets = path_views(self.targets@);
        let mut i: usize = 0;
        while i < self.targets.len()
            invariant
                i <= self.targets.len(),
                targets == path_views(self.targets@),
                plan@ == rm_all(start, fs@, targets.take(i as int), self.recursive, self.force),
                plan@.is_consistent(),
            decreases self.targets.len() - i,
        {
            proof {
                assert(targets.take(i as int + 1).drop_last() =~= targets.take(i as int));
                assert(targets.take(i as int + 1).last() == self.targets@[i as int]@);
            }
            self.plan_target(&mut plan, fs, &self.targets[i]);
            i += 1;
        }
        assert(targets.take(i as int) =~= targets);
        plan
    }
}

} // verus!
