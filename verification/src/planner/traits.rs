use crate::planner::plan::{Plan, PlanView};
use crate::snapshot::{FsSnapshot, SnapshotView};
use vstd::prelude::*;

verus! {

/// A command that can say, from a snapshot of the filesystem, what it would
/// do. Planning reads the snapshot and changes nothing; whatever stands in
/// the way of the command is recorded in the plan as an error.
pub trait Planner {
    /// The plan of this command in the filesystem state `fs`, made at
    /// `created_at`.
    spec fn planned(&self, fs: SnapshotView, created_at: u64) -> PlanView;

    /// Makes the plan of this command.
    fn plan(&self, fs: &FsSnapshot, created_at: u64) -> (plan: Plan)
        ensures
            plan@ == self.planned(fs@, created_at),
            plan@.is_consistent(),
    ;
}

} // verus!
