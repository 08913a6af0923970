use crate::path::{
    is_inside, lemma_join_inside, lemma_join_inside_apart, path_views, spec_file_name, FsPath,
    PathView,
};
use crate::planner::action::{
    all_plain, count_dir_deletions, lemma_counts_push, Action, ActionView, FsObjectKind,
};
use crate::planner::plan::{
    error_about, lemma_with_action_consistent, warning_about, CommandKind, ErrorKind, Plan,
    PlanError, PlanMetadata, PlanMetadataView, PlanView, PlanWarning, PlanWarningView,
    WarningKind,
};
use crate::planner::traits::Planner;
use crate::snapshot::{
    count_kind, is_preorder, walk_views, FsSnapshot, SnapshotView, WalkEntry, WalkEntryView,
};
use vstd::prelude::*;

verus! {

/// Planner for `mv`: moves each source to the target, or into it where the
/// target is a directory.
#[derive(Debug, PartialEq, Eq)]
pub struct MvPlanner {
    pub sources: Vec<FsPath>,
    pub target: FsPath,
    /// Accepted and not consulted.
    pub force: bool,
    pub cwd: FsPath,
}

/// The warning that something is at `dest` already.
pub open spec fn mv_overwrite_warning(dest: PathView) -> PlanWarningView {
    warning_about(WarningKind::Overwrite, dest, "Dest will be overwrite"@)
}

/// The action that moves `from` to `to`.
pub open spec fn mv_move(fs: SnapshotView, from: PathView, to: PathView) -> ActionView {
    ActionView::Move { from, to, overwrite: fs.is_present(to) }
}

/// The plan after the move of `from` to `to`, with its warning where
/// something is at `to` already.
pub open spec fn mv_relocate(
    plan: PlanView,
    fs: SnapshotView,
    from: PathView,
    to: PathView,
) -> PlanView {
    let warned = if fs.is_present(to) {
        plan.with_warning(mv_overwrite_warning(to))
    } else {
        plan
    };
    warned.with_action(mv_move(fs, from, to), false)
}

/// The target with the final component of `src` appended, where `src` has
/// one that names an entry.
pub open spec fn mv_named_dest(target: PathView, src: PathView) -> Option<PathView> {
    match spec_file_name(src) {
        Some(name) => Some(target.push(name)),
        None => None,
    }
}

/// The one action planned for an entry of the walk of `src`: a directory is
/// created below `dest_dir`, anything else is moved there.
pub open spec fn mv_entry_action(
    fs: SnapshotView,
    src: PathView,
    dest_dir: PathView,
    entry: WalkEntryView,
) -> ActionView {
    if entry.kind == FsObjectKind::Directory {
        ActionView::Create { path: dest_dir + entry.rel, kind: FsObjectKind::Directory }
    } else {
        mv_move(fs, src + entry.rel, dest_dir + entry.rel)
    }
}

/// The plan after one more entry of the walk of `src`. A directory creation
/// counts towards `dirs_created` where nothing is at its destination yet.
pub open spec fn mv_entry_step(
    plan: PlanView,
    fs: SnapshotView,
    src: PathView,
    dest_dir: PathView,
    entry: WalkEntryView,
) -> PlanView {
    let dest = dest_dir + entry.rel;
    if entry.kind == FsObjectKind::Directory {
        plan.with_action(mv_entry_action(fs, src, dest_dir, entry), !fs.is_present(dest))
    } else {
        mv_relocate(plan, fs, src + entry.rel, dest)
    }
}

/// The plan after the entries of the walk of `src`, taken in order.
pub open spec fn mv_walk(
    plan: PlanView,
    fs: SnapshotView,
    src: PathView,
    dest_dir: PathView,
    walk: Seq<WalkEntryView>,
) -> PlanView
    decreases walk.len(),
{
    if walk.len() == 0 {
        plan
    } else {
        mv_entry_step(
            mv_walk(plan, fs, src, dest_dir, walk.drop_last()),
            fs,
            src,
            dest_dir,
            walk.last(),
        )
    }
}

/// The removal of the source directory that the walk met as `entry`.
pub open spec fn mv_cleanup_action(src: PathView, entry: WalkEntryView) -> ActionView {
    ActionView::Delete { path: src + entry.rel, kind: FsObjectKind::Directory, recursive: false }
}

/// The removals of the directories of a walk of `src`, the one met last
/// first.
pub open spec fn mv_cleanup_actions(src: PathView, walk: Seq<WalkEntryView>) -> Seq<ActionView>
    decreases walk.len(),
{
    if walk.len() == 0 {
        Seq::empty()
    } else if walk.last().kind == FsObjectKind::Directory {
        seq![mv_cleanup_action(src, walk.last())] + mv_cleanup_actions(src, walk.drop_last())
    } else {
        mv_cleanup_actions(src, walk.drop_last())
    }
}

/// The plan after the removal of the directories of a walk of `src`, the one
/// met last first.
pub open spec fn mv_cleanup(plan: PlanView, src: PathView, walk: Seq<WalkEntryView>)
    -> PlanView
    decreases walk.len(),
{
    if walk.len() == 0 {
        plan
    } else if walk.last().kind == FsObjectKind::Directory {
        mv_cleanup(
            plan.with_action(mv_cleanup_action(src, walk.last()), false),
            src,
            walk.drop_last(),
        )
    } else {
        mv_cleanup(plan, src, walk.drop_last())
    }
}

/// An error about a source.
pub open spec fn mv_source_error(plan: PlanView, kind: ErrorKind, src: PathView, message: Seq<char>)
    -> PlanView {
    plan.with_error(error_about(kind, src, message))
}

/// The plan after one more source.
///
/// - Nothing there: an error.
/// - A directory: its tree is rebuilt below the destination directory, which
///   is the target, or the target followed by the name of the source where
///   the target is a directory. Each entry of the walk gets its action in
///   the order of the walk; then the directories of the walk are removed,
///   the one met last first.
/// - Anything else: moved to the target, or to the target followed by the
///   name of the source where the target is a directory or there are several
///   sources. A source that is its own destination is an error.
/// - A source whose name is needed and that has none is an error.
pub open spec fn mv_step(
    plan: PlanView,
    fs: SnapshotView,
    src: PathView,
    target: PathView,
    target_is_dir: bool,
    several: bool,
) -> PlanView {
    let probe = fs.probe(src);
    if !probe.exists {
        mv_source_error(plan, ErrorKind::NotFound, src, "Source does not exist"@)
    } else if probe.is_dir {
        let dest_dir = if target_is_dir {
            mv_named_dest(target, src)
        } else {
            Some(target)
        };
        match dest_dir {
            Some(dest_dir) => mv_cleanup(
                mv_walk(plan, fs, src, dest_dir, probe.walk),
                src,
                probe.walk,
            ),
            None => mv_source_error(plan, ErrorKind::InvalidPath, src, "Source has no file name"@),
        }
    } else {
        let dest = if several || target_is_dir {
            mv_named_dest(target, src)
        } else {
            Some(target)
        };
        match dest {
            Some(dest) => if src == dest {
                mv_source_error(
                    plan,
                    ErrorKind::InvalidPath,
                    src,
                    "Source and destination are the same"@,
                )
            } else {
                mv_relocate(plan, fs, src, dest)
            },
            None => mv_source_error(plan, ErrorKind::InvalidPath, src, "Source has no file name"@),
        }
    }
}

/// The plan after the given sources, taken in order.
pub open spec fn mv_all(
    start: PlanView,
    fs: SnapshotView,
    sources: Seq<PathView>,
    target: PathView,
    target_is_dir: bool,
    several: bool,
) -> PlanView
    decreases sources.len(),
{
    if sources.len() == 0 {
        start
    } else {
        mv_step(
            mv_all(start, fs, sources.drop_last(), target, target_is_dir, several),
            fs,
            sources.last(),
            target,
            target_is_dir,
            several,
        )
    }
}

/// Whether the target is a directory that is there.
pub open spec fn mv_target_is_dir(fs: SnapshotView, target: PathView) -> bool {
    fs.probe(target).exists && fs.probe(target).is_dir
}

/// The plan of `mv` for the given sources and target. Several sources need a
/// target that is a directory: without one the plan holds one error and
/// nothing else.
pub open spec fn mv_planned(
    sources: Seq<PathView>,
    target: PathView,
    cwd: PathView,
    fs: SnapshotView,
    created_at: u64,
) -> PlanView {
    let start = PlanView::empty(
        PlanMetadataView { command: CommandKind::Mv, working_dir: cwd, created_at },
    );
    let several = sources.len() > 1;
    if several && !fs.probe(target).exists {
        start.with_error(error_about(ErrorKind::NotFound, target, "Target does not exist"@))
    } else if several && !mv_target_is_dir(fs, target) {
        start.with_error(error_about(ErrorKind::InvalidPath, target, "Target must be a directory"@))
    } else {
        mv_all(start, fs, sources, target, mv_target_is_dir(fs, target), several)
    }
}

/// The actions of a walk are appended to the actions, one for each entry in
/// the order of the walk; nothing is removed, and errors stay as they are.
pub proof fn lemma_mv_walk(
    plan: PlanView,
    fs: SnapshotView,
    src: PathView,
    dest_dir: PathView,
    walk: Seq<WalkEntryView>,
)
    ensures
        mv_walk(plan, fs, src, dest_dir, walk).actions == plan.actions + walk.map_values(
            |e: WalkEntryView| mv_entry_action(fs, src, dest_dir, e),
        ),
        mv_walk(plan, fs, src, dest_dir, walk).errors == plan.errors,
        mv_walk(plan, fs, src, dest_dir, walk).metadata == plan.metadata,
        count_dir_deletions(mv_walk(plan, fs, src, dest_dir, walk).actions) == count_dir_deletions(
            plan.actions,
        ),
    decreases walk.len(),
{
    let action = |e: WalkEntryView| mv_entry_action(fs, src, dest_dir, e);
    if walk.len() == 0 {
        assert(plan.actions =~= plan.actions + walk.map_values(action));
    } else {
        let before = mv_walk(plan, fs, src, dest_dir, walk.drop_last());
        lemma_mv_walk(plan, fs, src, dest_dir, walk.drop_last());
        lemma_counts_push(before.actions, mv_entry_action(fs, src, dest_dir, walk.last()));
        assert(mv_walk(plan, fs, src, dest_dir, walk).actions =~= plan.actions + walk.map_values(
            action,
        ));
    }
}

/// The removals of a walk's directories are appended to the actions; there
/// are as many of them as the walk has directories, and warnings and errors
/// stay as they are.
pub proof fn lemma_mv_cleanup(plan: PlanView, src: PathView, walk: Seq<WalkEntryView>)
    ensures
        mv_cleanup(plan, src, walk).actions == plan.actions + mv_cleanup_actions(src, walk),
        mv_cleanup(plan, src, walk).warnings == plan.warnings,
        mv_cleanup(plan, src, walk).errors == plan.errors,
        mv_cleanup(plan, src, walk).metadata == plan.metadata,
        count_dir_deletions(mv_cleanup(plan, src, walk).actions) == count_dir_deletions(
            plan.actions,
        ) + count_kind(walk, FsObjectKind::Directory),
    decreases walk.len(),
{
    if walk.len() == 0 {
        assert(plan.actions =~= plan.actions + mv_cleanup_actions(src, walk));
    } else if walk.last().kind == FsObjectKind::Directory {
        let removal = mv_cleanup_action(src, walk.last());
        let next = plan.with_action(removal, false);
        lemma_mv_cleanup(next, src, walk.drop_last());
        lemma_counts_push(plan.actions, removal);
        assert(mv_cleanup(plan, src, walk).actions =~= plan.actions + mv_cleanup_actions(
            src,
            walk,
        ));
    } else {
        lemma_mv_cleanup(plan, src, walk.drop_last());
    }
}

/// The move of one entry keeps the counters in agreement with the lists.
pub proof fn lemma_mv_relocate_consistent(
    plan: PlanView,
    fs: SnapshotView,
    from: PathView,
    to: PathView,
)
    requires
        plan.is_consistent(),
    ensures
        mv_relocate(plan, fs, from, to).is_consistent(),
{
    lemma_with_action_consistent(plan, mv_move(fs, from, to), false);
    lemma_with_action_consistent(
        plan.with_warning(mv_overwrite_warning(to)),
        mv_move(fs, from, to),
        false,
    );
}

/// The actions of a walk keep the counters in agreement with the lists.
pub proof fn lemma_mv_walk_consistent(
    plan: PlanView,
    fs: SnapshotView,
    src: PathView,
    dest_dir: PathView,
    walk: Seq<WalkEntryView>,
)
    requires
        plan.is_consistent(),
    ensures
        mv_walk(plan, fs, src, dest_dir, walk).is_consistent(),
    decreases walk.len(),
{
    if walk.len() > 0 {
        let before = mv_walk(plan, fs, src, dest_dir, walk.drop_last());
        let entry = walk.last();
        lemma_mv_walk_consistent(plan, fs, src, dest_dir, walk.drop_last());
        lemma_with_action_consistent(
            before,
            mv_entry_action(fs, src, dest_dir, entry),
            !fs.is_present(dest_dir + entry.rel),
        );
        lemma_mv_relocate_consistent(before, fs, src + entry.rel, dest_dir + entry.rel);
    }
}

/// The removals of a walk's directories keep the counters in agreement with
/// the lists.
pub proof fn lemma_mv_cleanup_consistent(plan: PlanView, src: PathView, walk: Seq<WalkEntryView>)
    requires
        plan.is_consistent(),
    ensures
        mv_cleanup(plan, src, walk).is_consistent(),
    decreases walk.len(),
{
    if walk.len() > 0 {
        let next = plan.with_action(mv_cleanup_action(src, walk.last()), false);
        lemma_with_action_consistent(plan, mv_cleanup_action(src, walk.last()), false);
        lemma_mv_cleanup_consistent(next, src, walk.drop_last());
        lemma_mv_cleanup_consistent(plan, src, walk.drop_last());
    }
}

/// One more source keeps the counters in agreement with the lists.
pub proof fn lemma_mv_step_consistent(
    plan: PlanView,
    fs: SnapshotView,
    src: PathView,
    target: PathView,
    target_is_dir: bool,
    several: bool,
)
    requires
        plan.is_consistent(),
    ensures
        mv_step(plan, fs, src, target, target_is_dir, several).is_consistent(),
{
    let probe = fs.probe(src);
    if probe.exists {
        match mv_named_dest(target, src) {
            Some(dest) => {
                lemma_mv_walk_consistent(plan, fs, src, dest, probe.walk);
                lemma_mv_cleanup_consistent(
                    mv_walk(plan, fs, src, dest, probe.walk),
                    src,
                    probe.walk,
                );
                lemma_mv_relocate_consistent(plan, fs, src, dest);
            },
            None => {},
        }
        lemma_mv_walk_consistent(plan, fs, src, target, probe.walk);
        lemma_mv_cleanup_consistent(
            mv_walk(plan, fs, src, target, probe.walk),
            src,
            probe.walk,
        );
        lemma_mv_relocate_consistent(plan, fs, src, target);
    }
}

/// After any sources the counters agree with the lists.
pub proof fn lemma_mv_all_consistent(
    start: PlanView,
    fs: SnapshotView,
    sources: Seq<PathView>,
    target: PathView,
    target_is_dir: bool,
    several: bool,
)
    requires
        start.is_consistent(),
    ensures
        mv_all(start, fs, sources, target, target_is_dir, several).is_consistent(),
    decreases sources.len(),
{
    if sources.len() > 0 {
        lemma_mv_all_consistent(start, fs, sources.drop_last(), target, target_is_dir, several);
        lemma_mv_step_consistent(
            mv_all(start, fs, sources.drop_last(), target, target_is_dir, several),
            fs,
            sources.last(),
            target,
            target_is_dir,
            several,
        );
    }
}

/// The counters of a plan of `mv` agree with its lists.
pub proof fn law_mv_plan_consistent(
    sources: Seq<PathView>,
    target: PathView,
    cwd: PathView,
    fs: SnapshotView,
    created_at: u64,
)
    ensures
        mv_planned(sources, target, cwd, fs, created_at).is_consistent(),
{
    let start = PlanView::empty(
        PlanMetadataView { command: CommandKind::Mv, working_dir: cwd, created_at },
    );
    lemma_mv_all_consistent(
        start,
        fs,
        sources,
        target,
        mv_target_is_dir(fs, target),
        sources.len() > 1,
    );
}

/// `action` removes the directory that the walk of `src` met as entry `i`.
pub open spec fn mv_cleans(src: PathView, walk: Seq<WalkEntryView>, action: ActionView, i: int)
    -> bool {
    &&& 0 <= i < walk.len()
    &&& walk[i].kind == FsObjectKind::Directory
    &&& action == mv_cleanup_action(src, walk[i])
}

/// `action` removes a directory that the walk of `src` met.
pub open spec fn mv_cleans_some(src: PathView, walk: Seq<WalkEntryView>, action: ActionView)
    -> bool {
    exists|i: int| mv_cleans(src, walk, action, i)
}

/// Each removal of a walk's directories removes a directory of the walk, and
/// where the walk lists each directory before its contents, a directory is
/// removed only after every directory inside it.
pub proof fn lemma_mv_cleanup_deepest_first(src: PathView, walk: Seq<WalkEntryView>)
    ensures
        forall|k: int|
            0 <= k < mv_cleanup_actions(src, walk).len() ==> mv_cleans_some(
                src,
                walk,
                #[trigger] mv_cleanup_actions(src, walk)[k],
            ),
        is_preorder(walk) ==> forall|a: int, b: int|
            0 <= a < mv_cleanup_actions(src, walk).len() && 0 <= b < mv_cleanup_actions(
                src,
                walk,
            ).len() && is_inside(
                (#[trigger] mv_cleanup_actions(src, walk)[a])->Delete_path,
                (#[trigger] mv_cleanup_actions(src, walk)[b])->Delete_path,
            ) ==> a < b,
    decreases walk.len(),
{
    let removals = mv_cleanup_actions(src, walk);
    if walk.len() > 0 {
        let front = walk.drop_last();
        let rest = mv_cleanup_actions(src, front);
        let last = walk.len() - 1;
        let skipped: int = if walk.last().kind == FsObjectKind::Directory {
            1
        } else {
            0
        };
        lemma_mv_cleanup_deepest_first(src, front);
        assert forall|k: int| 0 <= k < removals.len() implies mv_cleans_some(
            src,
            walk,
            #[trigger] removals[k],
        ) by {
            if k < skipped {
                assert(mv_cleans(src, walk, removals[k], last));
            } else {
                let removal = rest[k - skipped];
                assert(removals[k] == removal);
                assert(mv_cleans_some(src, front, removal));
                let i = choose|i: int| #[trigger] mv_cleans(src, front, removal, i);
                assert(mv_cleans(src, walk, removals[k], i));
            }
        }
        if is_preorder(walk) {
            assert(is_preorder(front)) by {
                assert forall|i: int, j: int|
                    0 <= i < front.len() && 0 <= j < front.len() && is_inside(
                        #[trigger] front[j].rel,
                        #[trigger] front[i].rel,
                    ) implies i < j by {
                    assert(front[i] == walk[i] && front[j] == walk[j]);
                }
            }
            assert forall|a: int, b: int|
                0 <= a < removals.len() && 0 <= b < removals.len() && is_inside(
                    (#[trigger] removals[a])->Delete_path,
                    (#[trigger] removals[b])->Delete_path,
                ) implies a < b by {
                if a >= skipped && b >= skipped {
                    assert(removals[a] == rest[a - skipped]);
                    assert(removals[b] == rest[b - skipped]);
                } else if b < skipped && a >= skipped {
                    let removal = rest[a - skipped];
                    assert(removals[a] == removal);
                    assert(mv_cleans_some(src, front, removal));
                    let i = choose|i: int| #[trigger] mv_cleans(src, front, removal, i);
                    assert(walk[i] == front[i]);
                    lemma_join_inside(src, walk[i].rel, walk[last].rel);
                    assert(is_inside(walk[i].rel, walk[last].rel));
                    assert(false);
                }
            }
        }
    }
}

/// One more source adds plain actions only.
pub proof fn lemma_mv_step_plain(
    plan: PlanView,
    fs: SnapshotView,
    src: PathView,
    target: PathView,
    target_is_dir: bool,
    several: bool,
)
    requires
        all_plain(plan.actions),
    ensures
        all_plain(mv_step(plan, fs, src, target, target_is_dir, several).actions),
{
    let probe = fs.probe(src);
    let dest_dir = if target_is_dir {
        mv_named_dest(target, src)
    } else {
        Some(target)
    };
    if probe.exists && probe.is_dir && dest_dir is Some {
        let walked = mv_walk(plan, fs, src, dest_dir.unwrap(), probe.walk);
        let done = mv_cleanup(walked, src, probe.walk);
        let removals = mv_cleanup_actions(src, probe.walk);
        lemma_mv_walk(plan, fs, src, dest_dir.unwrap(), probe.walk);
        lemma_mv_cleanup(walked, src, probe.walk);
        lemma_mv_cleanup_deepest_first(src, probe.walk);
        let actions = done.actions;
        assert forall|i: int| 0 <= i < actions.len() implies (#[trigger] actions[i]).is_plain() by {
            if i >= walked.actions.len() {
                let removal = removals[i - walked.actions.len()];
                assert(mv_cleans_some(src, probe.walk, removal));
            } else if i >= plan.actions.len() {
                assert(done.actions[i] == mv_entry_action(
                    fs,
                    src,
                    dest_dir.unwrap(),
                    probe.walk[i - plan.actions.len()],
                ));
            } else {
                assert(done.actions[i] == plan.actions[i]);
            }
        }
    }
}

/// Every action of a plan of `mv` is plain. So it creates no symbolic link,
/// and removes directories one by one.
pub proof fn law_mv_actions_are_plain(
    sources: Seq<PathView>,
    target: PathView,
    cwd: PathView,
    fs: SnapshotView,
    created_at: u64,
)
    ensures
        all_plain(mv_planned(sources, target, cwd, fs, created_at).actions),
{
    let start = PlanView::empty(
        PlanMetadataView { command: CommandKind::Mv, working_dir: cwd, created_at },
    );
    lemma_mv_all_plain(
        start,
        fs,
        sources,
        target,
        mv_target_is_dir(fs, target),
        sources.len() > 1,
    );
}

/// After any sources every action is plain.
pub proof fn lemma_mv_all_plain(
    start: PlanView,
    fs: SnapshotView,
    sources: Seq<PathView>,
    target: PathView,
    target_is_dir: bool,
    several: bool,
)
    requires
        all_plain(start.actions),
    ensures
        all_plain(mv_all(start, fs, sources, target, target_is_dir, several).actions),
    decreases sources.len(),
{
    if sources.len() > 0 {
        lemma_mv_all_plain(start, fs, sources.drop_last(), target, target_is_dir, several);
        lemma_mv_step_plain(
            mv_all(start, fs, sources.drop_last(), target, target_is_dir, several),
            fs,
            sources.last(),
            target,
            target_is_dir,
            several,
        );
    }
}

/// `mv` of one directory plans, for each entry of the directory's walk and
/// in the order of the walk, the creation of a directory or the move of
/// anything else, and after these the removal of each directory of the walk,
/// the one met last first; it finds no error. So it removes as many
/// directories as the source tree holds, the source itself among them.
///
/// Wherever the walk lists each directory before its contents:
/// - a directory is created before anything is moved into it, and before
///   anything is removed;
/// - a directory is created before anything is moved out of it, unless the
///   source lies below the destination directory or the destination
///   directory below the source;
/// - everything is moved before anything is removed;
/// - a directory is removed only after every directory inside it.
pub proof fn law_mv_directory_order(
    src: PathView,
    target: PathView,
    cwd: PathView,
    fs: SnapshotView,
    created_at: u64,
)
    requires
        fs.probe(src).exists,
        fs.probe(src).is_dir,
        mv_target_is_dir(fs, target) ==> spec_file_name(src) is Some,
    ensures
        ({
            let plan = mv_planned(seq![src], target, cwd, fs, created_at);
            let walk = fs.probe(src).walk;
            let dest_dir = if mv_target_is_dir(fs, target) {
                target.push(spec_file_name(src).unwrap())
            } else {
                target
            };
            &&& plan.actions == walk.map_values(
                |e: WalkEntryView| mv_entry_action(fs, src, dest_dir, e),
            ) + mv_cleanup_actions(src, walk)
            &&& plan.errors.len() == 0
            &&& count_dir_deletions(plan.actions) == count_kind(walk, FsObjectKind::Directory)
            &&& plan.summary.dirs_deleted == count_kind(walk, FsObjectKind::Directory)
            &&& is_preorder(walk) ==> {
                &&& forall|c: int, k: int|
                    0 <= c < plan.actions.len() && 0 <= k < plan.actions.len()
                        && (#[trigger] plan.actions[c]).creates_dir() && (
                    (#[trigger] plan.actions[k]) is Delete || (plan.actions[k] is Move
                        && is_inside(
                        plan.actions[k]->Move_to,
                        plan.actions[c]->Create_path,
                    ))) ==> c < k
                &&& !is_inside(src, dest_dir) && !is_inside(dest_dir, src) ==> forall|
                    c: int,
                    k: int,
                |
                    0 <= c < plan.actions.len() && 0 <= k < plan.actions.len()
                        && (#[trigger] plan.actions[c]).creates_dir()
                        && (#[trigger] plan.actions[k]) is Move && is_inside(
                        plan.actions[k]->Move_from,
                        plan.actions[c]->Create_path,
                    ) ==> c < k
                &&& forall|m: int, d: int|
                    0 <= m < plan.actions.len() && 0 <= d < plan.actions.len()
                        && (#[trigger] plan.actions[m]) is Move
                        && (#[trigger] plan.actions[d]) is Delete ==> m < d
                &&& forall|e: int, d: int|
                    0 <= e < plan.actions.len() && 0 <= d < plan.actions.len()
                        && (#[trigger] plan.actions[e]) is Delete
                        && (#[trigger] plan.actions[d]) is Delete && is_inside(
                        plan.actions[e]->Delete_path,
                        plan.actions[d]->Delete_path,
                    ) ==> e < d
            }
        }),
{
    let start = PlanView::empty(
        PlanMetadataView { command: CommandKind::Mv, working_dir: cwd, created_at },
    );
    let plan = mv_planned(seq![src], target, cwd, fs, created_at);
    let walk = fs.probe(src).walk;
    let target_is_dir = mv_target_is_dir(fs, target);
    let dest_dir = if target_is_dir {
        target.push(spec_file_name(src).unwrap())
    } else {
        target
    };
    assert(seq![src].drop_last() =~= Seq::<PathView>::empty());
    assert(seq![src].last() == src);
    assert(mv_all(start, fs, seq![src].drop_last(), target, target_is_dir, false) == start);
    let walked = mv_walk(start, fs, src, dest_dir, walk);
    assert(plan == mv_cleanup(walked, src, walk));
    lemma_mv_walk(start, fs, src, dest_dir, walk);
    lemma_mv_cleanup(walked, src, walk);
    lemma_mv_cleanup_deepest_first(src, walk);
    let action = |e: WalkEntryView| mv_entry_action(fs, src, dest_dir, e);
    let placed = walk.map_values(action);
    let removals = mv_cleanup_actions(src, walk);
    assert(plan.actions =~= placed + removals);
    assert(plan.errors =~= Seq::empty());
    assert(plan.is_consistent()) by {
        law_mv_plan_consistent(seq![src], target, cwd, fs, created_at);
    }
    assert forall|k: int| 0 <= k < plan.actions.len() implies (k < walk.len()
        ==> #[trigger] plan.actions[k] == mv_entry_action(fs, src, dest_dir, walk[k])) && (k
        >= walk.len() ==> plan.actions[k] == removals[k - walk.len()] && plan.actions[k] is Delete)
    by {
        if k >= walk.len() {
            let removal = removals[k - walk.len()];
            assert(mv_cleans_some(src, walk, removal));
            let i = choose|i: int| #[trigger] mv_cleans(src, walk, removal, i);
            assert(mv_cleans(src, walk, removal, i));
        }
    }
    if is_preorder(walk) {
        assert forall|c: int, k: int|
            0 <= c < plan.actions.len() && 0 <= k < plan.actions.len()
                && (#[trigger] plan.actions[c]).creates_dir() && ((#[trigger] plan.actions[k])
                is Delete || (plan.actions[k] is Move && is_inside(
                plan.actions[k]->Move_to,
                plan.actions[c]->Create_path,
            ))) implies c < k by {
            if plan.actions[k] is Move {
                lemma_join_inside(dest_dir, walk[k].rel, walk[c].rel);
            }
        }
        if !is_inside(src, dest_dir) && !is_inside(dest_dir, src) {
            assert forall|c: int, k: int|
                0 <= c < plan.actions.len() && 0 <= k < plan.actions.len()
                    && (#[trigger] plan.actions[c]).creates_dir()
                    && (#[trigger] plan.actions[k]) is Move && is_inside(
                    plan.actions[k]->Move_from,
                    plan.actions[c]->Create_path,
                ) implies c < k by {
                lemma_join_inside_apart(src, walk[k].rel, dest_dir, walk[c].rel);
            }
        }
        assert forall|e: int, d: int|
            0 <= e < plan.actions.len() && 0 <= d < plan.actions.len()
                && (#[trigger] plan.actions[e]) is Delete && (#[trigger] plan.actions[d])
                is Delete && is_inside(
                plan.actions[e]->Delete_path,
                plan.actions[d]->Delete_path,
            ) implies e < d by {
            assert(plan.actions[e] == removals[e - walk.len()]);
            assert(plan.actions[d] == removals[d - walk.len()]);
        }
    }
}

/// `mv` of one source that is no directory, to a target that is no
/// directory and is not the source, plans exactly the move of the source to
/// the target and finds no error. Where nothing is at the target the move
/// does not overwrite and there is no warning; where something is, the move
/// overwrites and there is exactly one warning.
pub proof fn law_mv_single_file(
    src: PathView,
    target: PathView,
    cwd: PathView,
    fs: SnapshotView,
    created_at: u64,
)
    requires
        fs.probe(src).exists,
        !fs.probe(src).is_dir,
        !mv_target_is_dir(fs, target),
        src != target,
    ensures
        ({
            let plan = mv_planned(seq![src], target, cwd, fs, created_at);
            &&& plan.actions == seq![
                ActionView::Move { from: src, to: target, overwrite: fs.is_present(target) },
            ]
            &&& plan.errors.len() == 0
            &&& plan.summary.files_moved == 1
            &&& fs.is_present(target) ==> plan.warnings == seq![mv_overwrite_warning(target)]
            &&& !fs.is_present(target) ==> plan.warnings.len() == 0
        }),
{
    let start = PlanView::empty(
        PlanMetadataView { command: CommandKind::Mv, working_dir: cwd, created_at },
    );
    let plan = mv_planned(seq![src], target, cwd, fs, created_at);
    assert(seq![src].drop_last() =~= Seq::<PathView>::empty());
    assert(seq![src].last() == src);
    assert(mv_all(start, fs, seq![src].drop_last(), target, false, false) == start);
    assert(plan == mv_relocate(start, fs, src, target));
    assert(plan.actions =~= seq![
        ActionView::Move { from: src, to: target, overwrite: fs.is_present(target) },
    ]);
    if fs.is_present(target) {
        assert(plan.warnings =~= seq![mv_overwrite_warning(target)]);
    }
}

impl MvPlanner {
    /// The planner of `mv` from `sources` to `target`, run from `cwd`.
    pub fn new(sources: Vec<FsPath>, target: FsPath, force: bool, cwd: FsPath) -> (planner:
        MvPlanner)
        ensures
            planner.sources == sources,
            planner.target == target,
            planner.force == force,
            planner.cwd == cwd,
    {
        MvPlanner { sources, target, force, cwd }
    }

    /// Plans the move of `from` to `to`.
    fn plan_relocate(plan: &mut Plan, fs: &FsSnapshot, from: FsPath, to: FsPath)
        requires
            old(plan)@.is_consistent(),
        ensures
            final(plan)@ == mv_relocate(old(plan)@, fs@, from@, to@),
            final(plan)@.is_consistent(),
    {
        let overwrite = fs.is_present(&to);
        if overwrite {
            plan.push_warning(
                PlanWarning::about(WarningKind::Overwrite, &to, "Dest will be overwrite"),
            );
        }
        plan.push_action(Action::Move { from, to, overwrite }, false);
    }

    /// Plans the actions for the entries of the walk of `src`.
    fn plan_walk(
        plan: &mut Plan,
        fs: &FsSnapshot,
        src: &FsPath,
        dest_dir: &FsPath,
        walk: &Vec<WalkEntry>,
    )
        requires
            old(plan)@.is_consistent(),
        ensures
            final(plan)@ == mv_walk(old(plan)@, fs@, src@, dest_dir@, walk_views(walk@)),
            final(plan)@.is_consistent(),
    {
        let ghost entries = walk_views(walk@);
        let mut j: usize = 0;
        while j < walk.len()
            invariant
                j <= walk.len(),
                entries == walk_views(walk@),
                plan@ == mv_walk(old(plan)@, fs@, src@, dest_dir@, entries.take(j as int)),
                plan@.is_consistent(),
            decreases walk.len() - j,
        {
            let entry = &walk[j];
            proof {
                assert(entries.take(j as int + 1).drop_last() =~= entries.take(j as int));
                assert(entries.take(j as int + 1).last() == entry@);
            }
            let dest = dest_dir.join(&entry.rel);
            if entry.kind.is_dir() {
                let fresh = !fs.is_present(&dest);
                plan.push_action(
                    Action::Create { path: dest, kind: FsObjectKind::Directory },
                    fresh,
                );
            } else {
                Self::plan_relocate(plan, fs, src.join(&entry.rel), dest);
            }
            j += 1;
        }
        assert(entries.take(j as int) =~= entries);
    }

    /// Plans the removal of the directories of the walk of `src`.
    fn plan_cleanup(plan: &mut Plan, src: &FsPath, walk: &Vec<WalkEntry>)
        requires
            old(plan)@.is_consistent(),
        ensures
            final(plan)@ == mv_cleanup(old(plan)@, src@, walk_views(walk@)),
            final(plan)@.is_consistent(),
    {
        let ghost entries = walk_views(walk@);
        let mut j: usize = walk.len();
        assert(entries.take(j as int) =~= entries);
        while j > 0
            invariant
                j <= walk.len(),
                entries == walk_views(walk@),
                mv_cleanup(plan@, src@, entries.take(j as int)) == mv_cleanup(
                    old(plan)@,
                    src@,
                    entries,
                ),
                plan@.is_consistent(),
            decreases j,
        {
            j -= 1;
            let entry = &walk[j];
            proof {
                assert(entries.take(j as int + 1).drop_last() =~= entries.take(j as int));
                assert(entries.take(j as int + 1).last() == entry@);
            }
            if entry.kind.is_dir() {
                plan.push_action(
                    Action::Delete {
                        path: src.join(&entry.rel),
                        kind: FsObjectKind::Directory,
                        recursive: false,
                    },
                    false,
                );
            }
        }
    }

    /// The target followed by the name of `src`.
    fn named_dest(&self, src: &FsPath) -> (dest: Option<FsPath>)
        ensures
            dest is Some <==> mv_named_dest(self.target@, src@) is Some,
            dest matches Some(d) ==> Some(d@) == mv_named_dest(self.target@, src@),
    {
        match src.file_name() {
            Some(name) => Some(self.target.join_name(&name)),
            None => None,
        }
    }

    /// Plans the move of one source.
    fn plan_source(
        &self,
        plan: &mut Plan,
        fs: &FsSnapshot,
        src: &FsPath,
        target_is_dir: bool,
        several: bool,
    )
        requires
            old(plan)@.is_consistent(),
        ensures
            final(plan)@ == mv_step(old(plan)@, fs@, src@, self.target@, target_is_dir, several),
            final(plan)@.is_consistent(),
    {
        let probe = match fs.probe(src) {
            Some(probe) if probe.exists => probe,
            _ => {
                plan.push_error(
                    PlanError::about(ErrorKind::NotFound, src, "Source does not exist"),
                );
                return ;
            },
        };
        let named = several || target_is_dir;
        let dest = if (probe.is_dir && target_is_dir) || (!probe.is_dir && named) {
            self.named_dest(src)
        } else {
            Some(self.target.clone())
        };
        let dest = match dest {
            Some(dest) => dest,
            None => {
                plan.push_error(
                    PlanError::about(ErrorKind::InvalidPath, src, "Source has no file name"),
                );
                return ;
            },
        };
        if probe.is_dir {
            Self::plan_walk(plan, fs, src, &dest, &probe.walk);
            Self::plan_cleanup(plan, src, &probe.walk);
        } else if src.equals(&dest) {
            plan.push_error(
                PlanError::about(
                    ErrorKind::InvalidPath,
                    src,
                    "Source and destination are the same",
                ),
            );
        } else {
            Self::plan_relocate(plan, fs, src.clone(), dest);
        }
    }
}

impl Planner for MvPlanner {
    open spec fn planned(&self, fs: SnapshotView, created_at: u64) -> PlanView {
        mv_planned(path_views(self.sources@), self.target@, self.cwd@, fs, created_at)
    }

    fn plan(&self, fs: &FsSnapshot, created_at: u64) -> (plan: Plan) {
        let mut plan = Plan::new(
            PlanMetadata { command: CommandKind::Mv, working_dir: self.cwd.clone(), created_at },
        );
        let ghost start = plan@;
        let ghost sources = path_views(self.sources@);
        let several = self.sources.len() > 1;
        let (target_exists, target_is_dir) = match fs.probe(&self.target) {
            Some(probe) => (probe.exists, probe.exists && probe.is_dir),
            None => (false, false),
        };
        if several && !target_exists {
            plan.push_error(
                PlanError::about(ErrorKind::NotFound, &self.target, "Target does not exist"),
            );
            return plan;
        }
        if several && !target_is_dir {
            plan.push_error(
                PlanError::about(
                    ErrorKind::InvalidPath,
                    &self.target,
                    "Target must be a directory",
                ),
            );
            return plan;
        }
        let mut i: usize = 0;
        while i < self.sources.len()
            invariant
                i <= self.sources.len(),
                sources == path_views(self.sources@),
                plan@ == mv_all(
                    start,
                    fs@,
                    sources.take(i as int),
                    self.target@,
                    target_is_dir,
                    several,
                ),
                plan@.is_consistent(),
            decreases self.sources.len() - i,
        {
            proof {
                assert(sources.take(i as int + 1).drop_last() =~= sources.take(i as int));
                assert(sources.take(i as int + 1).last() == self.sources@[i as int]@);
            }
            self.plan_source(&mut plan, fs, &self.sources[i], target_is_dir, several);
            i += 1;
        }
        assert(sources.take(i as int) =~= sources);
        plan
    }
}

} // verus!
