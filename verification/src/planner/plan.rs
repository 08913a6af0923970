use crate::path::{FsPath, PathView};
use crate::planner::action::{
    action_views, count_dir_creations, count_dir_deletions, count_file_creations,
    count_file_deletions, count_moves, lemma_counts_bounded, lemma_counts_push, Action, ActionView,
    FsObjectKind,
};
use vstd::prelude::*;

verus! {

/// The command that a plan was made for.
#[derive(Debug, Clone, Copy, PartialEq, Eq, Structural)]
pub enum CommandKind {
    Touch,
    Mv,
    Rm,
}

/// Where and when a plan was made, and for which command.
#[derive(Debug, PartialEq, Eq)]
pub struct PlanMetadata {
    pub command: CommandKind,
    pub working_dir: FsPath,
    /// Seconds since the Unix epoch.
    pub created_at: u64,
}

/// The mathematical value of a [`PlanMetadata`].
pub struct PlanMetadataView {
    pub command: CommandKind,
    pub working_dir: PathView,
    pub created_at: u64,
}

impl View for PlanMetadata {
    type V = PlanMetadataView;

    open spec fn view(&self) -> PlanMetadataView {
        PlanMetadataView {
            command: self.command,
            working_dir: self.working_dir@,
            created_at: self.created_at,
        }
    }
}

/// Counters over a plan.
#[derive(Debug, Clone, Copy, PartialEq, Eq, Structural)]
pub struct PlanSummary {
    pub files_deleted: usize,
    pub dirs_deleted: usize,
    pub files_created: usize,
    /// Directory creations whose destination did not exist yet.
    pub dirs_created: usize,
    pub files_moved: usize,
    pub warnings: usize,
    pub errors: usize,
}

/// The mathematical value of a [`PlanSummary`].
pub struct PlanSummaryView {
    pub files_deleted: nat,
    pub dirs_deleted: nat,
    pub files_created: nat,
    pub dirs_created: nat,
    pub files_moved: nat,
    pub warnings: nat,
    pub errors: nat,
}

impl View for PlanSummary {
    type V = PlanSummaryView;

    open spec fn view(&self) -> PlanSummaryView {
        PlanSummaryView {
            files_deleted: self.files_deleted as nat,
            dirs_deleted: self.dirs_deleted as nat,
            files_created: self.files_created as nat,
            dirs_created: self.dirs_created as nat,
            files_moved: self.files_moved as nat,
            warnings: self.warnings as nat,
            errors: self.errors as nat,
        }
    }
}

impl PlanSummaryView {
    /// All counters at zero.
    pub open spec fn zero() -> PlanSummaryView {
        PlanSummaryView {
            files_deleted: 0,
            dirs_deleted: 0,
            files_created: 0,
            dirs_created: 0,
            files_moved: 0,
            warnings: 0,
            errors: 0,
        }
    }
}

impl Default for PlanSummary {
    fn default() -> (summary: PlanSummary)
        ensures
            summary@ == PlanSummaryView::zero(),
    {
        PlanSummary {
            files_deleted: 0,
            dirs_deleted: 0,
            files_created: 0,
            dirs_created: 0,
            files_moved: 0,
            warnings: 0,
            errors: 0,
        }
    }
}

/// What a warning is about.
#[derive(Debug, Clone, Copy, PartialEq, Eq, Structural)]
pub enum WarningKind {
    Overwrite,
    RecursiveDelete,
    LargeOperation,
    PermissionRisk,
}

/// A remark on a plan that does not stop its execution.
#[derive(Debug, PartialEq, Eq)]
pub struct PlanWarning {
    pub kind: WarningKind,
    pub paths: Vec<FsPath>,
    pub message: String,
}

/// The mathematical value of a [`PlanWarning`].
pub struct PlanWarningView {
    pub kind: WarningKind,
    pub paths: Seq<PathView>,
    pub message: Seq<char>,
}

impl View for PlanWarning {
    type V = PlanWarningView;

    open spec fn view(&self) -> PlanWarningView {
        PlanWarningView {
            kind: self.kind,
            paths: self.paths@.map_values(|p: FsPath| p@),
            message: self.message@,
        }
    }
}

/// Why a plan cannot be executed.
#[derive(Debug, Clone, Copy, PartialEq, Eq, Structural)]
pub enum ErrorKind {
    NotFound,
    PermissionDenied,
    InvalidPath,
    Unsupported,
}

/// A finding that makes the whole plan unexecutable.
#[derive(Debug, PartialEq, Eq)]
pub struct PlanError {
    pub kind: ErrorKind,
    pub path: Option<FsPath>,
    pub message: String,
}

/// The mathematical value of a [`PlanError`].
pub struct PlanErrorView {
    pub kind: ErrorKind,
    pub path: Option<PathView>,
    pub message: Seq<char>,
}

impl View for PlanError {
    type V = PlanErrorView;

    open spec fn view(&self) -> PlanErrorView {
        PlanErrorView {
            kind: self.kind,
            path: match self.path {
                Some(p) => Some(p@),
                None => None,
            },
            message: self.message@,
        }
    }
}

/// The ordered actions of one command, with what was found while planning.
///
/// The order of the actions is the order in which they are to be applied.
#[derive(Debug, PartialEq, Eq)]
pub struct Plan {
    pub metadata: PlanMetadata,
    pub actions: Vec<Action>,
    pub warnings: Vec<PlanWarning>,
    pub errors: Vec<PlanError>,
    pub summary: PlanSummary,
}

/// The mathematical value of a [`Plan`].
pub struct PlanView {
    pub metadata: PlanMetadataView,
    pub actions: Seq<ActionView>,
    pub warnings: Seq<PlanWarningView>,
    pub errors: Seq<PlanErrorView>,
    pub summary: PlanSummaryView,
}

impl View for Plan {
    type V = PlanView;

    open spec fn view(&self) -> PlanView {
        PlanView {
            metadata: self.metadata@,
            actions: action_views(self.actions@),
            warnings: self.warnings@.map_values(|w: PlanWarning| w@),
            errors: self.errors@.map_values(|e: PlanError| e@),
            summary: self.summary@,
        }
    }
}

/// A warning about one path.
pub open spec fn warning_about(kind: WarningKind, path: PathView, message: Seq<char>)
    -> PlanWarningView {
    PlanWarningView { kind, paths: seq![path], message }
}

/// An error about one path.
pub open spec fn error_about(kind: ErrorKind, path: PathView, message: Seq<char>)
    -> PlanErrorView {
    PlanErrorView { kind, path: Some(path), message }
}

impl PlanView {
    /// The plan without actions, warnings or errors.
    pub open spec fn empty(metadata: PlanMetadataView) -> PlanView {
        PlanView {
            metadata,
            actions: Seq::empty(),
            warnings: Seq::empty(),
            errors: Seq::empty(),
            summary: PlanSummaryView::zero(),
        }
    }

    /// The counters agree with the lists: `warnings` and `errors` are the
    /// lengths of their lists, and each other counter but `dirs_created` is
    /// the number of actions of its kind. `dirs_created` counts some of the
    /// directory creations.
    pub open spec fn is_consistent(self) -> bool {
        &&& self.summary.warnings == self.warnings.len()
        &&& self.summary.errors == self.errors.len()
        &&& self.summary.files_created == count_file_creations(self.actions)
        &&& self.summary.files_moved == count_moves(self.actions)
        &&& self.summary.files_deleted == count_file_deletions(self.actions)
        &&& self.summary.dirs_deleted == count_dir_deletions(self.actions)
        &&& self.summary.dirs_created <= count_dir_creations(self.actions)
    }

    /// The counters after one more action. A directory creation counts
    /// towards `dirs_created` where `fresh` holds.
    pub open spec fn summary_with(self, a: ActionView, fresh: bool) -> PlanSummaryView {
        PlanSummaryView {
            files_created: if a.creates_file() {
                self.summary.files_created + 1
            } else {
                self.summary.files_created
            },
            dirs_created: if a.creates_dir() && fresh {
                self.summary.dirs_created + 1
            } else {
                self.summary.dirs_created
            },
            files_moved: if a.moves() {
                self.summary.files_moved + 1
            } else {
                self.summary.files_moved
            },
            files_deleted: if a.deletes_file() {
                self.summary.files_deleted + 1
            } else {
                self.summary.files_deleted
            },
            dirs_deleted: if a.deletes_dir() {
                self.summary.dirs_deleted + 1
            } else {
                self.summary.dirs_deleted
            },
            ..self.summary
        }
    }

    /// The plan with one more action at its end.
    pub open spec fn with_action(self, a: ActionView, fresh: bool) -> PlanView {
        PlanView { actions: self.actions.push(a), summary: self.summary_with(a, fresh), ..self }
    }

    /// The plan with one more warning at the end of its warnings.
    pub open spec fn with_warning(self, w: PlanWarningView) -> PlanView {
        PlanView {
            warnings: self.warnings.push(w),
            summary: PlanSummaryView { warnings: self.summary.warnings + 1, ..self.summary },
            ..self
        }
    }

    /// The plan with one more error at the end of its errors.
    pub open spec fn with_error(self, e: PlanErrorView) -> PlanView {
        PlanView {
            errors: self.errors.push(e),
            summary: PlanSummaryView { errors: self.summary.errors + 1, ..self.summary },
            ..self
        }
    }
}

/// One more action keeps the counters in agreement with the lists.
pub proof fn lemma_with_action_consistent(plan: PlanView, a: ActionView, fresh: bool)
    requires
        plan.is_consistent(),
    ensures
        plan.with_action(a, fresh).is_consistent(),
{
    lemma_counts_push(plan.actions, a);
    lemma_counts_bounded(plan.actions);
    lemma_counts_bounded(plan.actions.push(a));
}

/// One more warning keeps the counters in agreement with the lists.
pub proof fn lemma_with_warning_consistent(plan: PlanView, w: PlanWarningView)
    requires
        plan.is_consistent(),
    ensures
        plan.with_warning(w).is_consistent(),
{
}

impl Plan {
    /// A plan without actions, warnings or errors.
    pub fn new(metadata: PlanMetadata) -> (plan: Plan)
        ensures
            plan@ == PlanView::empty(metadata@),
            plan@.is_consistent(),
    {
        let plan = Plan {
            metadata,
            actions: Vec::new(),
            warnings: Vec::new(),
            errors: Vec::new(),
            summary: PlanSummary::default(),
        };
        assert(plan@.actions =~= Seq::empty());
        assert(plan@.warnings =~= Seq::empty());
        assert(plan@.errors =~= Seq::empty());
        plan
    }

    /// Appends an action and counts it. A directory creation counts towards
    /// `dirs_created` where `fresh` is set.
    pub fn push_action(&mut self, action: Action, fresh: bool)
        requires
            old(self)@.is_consistent(),
        ensures
            final(self)@ == old(self)@.with_action(action@, fresh),
            final(self)@.is_consistent(),
    {
        let ghost before = self@;
        self.actions.push(action);
        let last = self.actions.len() - 1;
        proof {
            assert(self@.actions =~= before.actions.push(action@));
            lemma_counts_bounded(before.actions);
            lemma_with_action_consistent(before, action@, fresh);
        }
        match &self.actions[last] {
            Action::Create { kind, .. } => match kind {
                FsObjectKind::File => {
                    self.summary.files_created += 1;
                },
                FsObjectKind::Directory => {
                    if fresh {
                        self.summary.dirs_created += 1;
                    }
                },
                FsObjectKind::Symlink => {},
            },
            Action::Move { .. } => {
                self.summary.files_moved += 1;
            },
            Action::Modify { .. } => {},
            Action::Delete { kind, .. } => match kind {
                FsObjectKind::Directory => {
                    self.summary.dirs_deleted += 1;
                },
                _ => {
                    self.summary.files_deleted += 1;
                },
            },
        }
    }

    /// Appends a warning and counts it.
    pub fn push_warning(&mut self, warning: PlanWarning)
        requires
            old(self)@.is_consistent(),
        ensures
            final(self)@ == old(self)@.with_warning(warning@),
            final(self)@.is_consistent(),
    {
        let ghost before = self@;
        self.warnings.push(warning);
        self.summary.warnings = self.warnings.len();
        assert(self@.warnings =~= before.warnings.push(warning@));
    }

    /// Appends an error and counts it.
    pub fn push_error(&mut self, error: PlanError)
        requires
            old(self)@.is_consistent(),
        ensures
            final(self)@ == old(self)@.with_error(error@),
            final(self)@.is_consistent(),
    {
        let ghost before = self@;
        self.errors.push(error);
        self.summary.errors = self.errors.len();
        assert(self@.errors =~= before.errors.push(error@));
    }

    /// Whether the counters agree with the lists.
    pub fn is_consistent(&self) -> (ok: bool)
        ensures
            ok == self@.is_consistent(),
    {
        let ghost actions = self@.actions;
        let mut files_created: usize = 0;
        let mut dirs_created: usize = 0;
        let mut files_moved: usize = 0;
        let mut files_deleted: usize = 0;
        let mut dirs_deleted: usize = 0;
        let mut i: usize = 0;
        while i < self.actions.len()
            invariant
                i <= self.actions.len(),
                actions == self@.actions,
                actions.len() == self.actions.len(),
                files_created == count_file_creations(actions.take(i as int)),
                dirs_created == count_dir_creations(actions.take(i as int)),
                files_moved == count_moves(actions.take(i as int)),
                files_deleted == count_file_deletions(actions.take(i as int)),
                dirs_deleted == count_dir_deletions(actions.take(i as int)),
            decreases self.actions.len() - i,
        {
            proof {
                assert(actions.take(i as int + 1) =~= actions.take(i as int).push(
                    self.actions@[i as int]@,
                ));
                lemma_counts_push(actions.take(i as int), self.actions@[i as int]@);
                lemma_counts_bounded(actions.take(i as int + 1));
            }
            match &self.actions[i] {
                Action::Create { kind, .. } => match kind {
                    FsObjectKind::File => {
                        files_created += 1;
                    },
                    FsObjectKind::Directory => {
                        dirs_created += 1;
                    },
                    FsObjectKind::Symlink => {},
                },
                Action::Move { .. } => {
                    files_moved += 1;
                },
                Action::Modify { .. } => {},
                Action::Delete { kind, .. } => match kind {
                    FsObjectKind::Directory => {
                        dirs_deleted += 1;
                    },
                    _ => {
                        files_deleted += 1;
                    },
                },
            }
            i += 1;
        }
        assert(actions.take(i as int) =~= actions);
        self.summary.warnings == self.warnings.len() && self.summary.errors == self.errors.len()
            && self.summary.files_created == files_created && self.summary.files_moved
            == files_moved && self.summary.files_deleted == files_deleted
            && self.summary.dirs_deleted == dirs_deleted && self.summary.dirs_created
            <= dirs_created
    }

    /// Whether the plan holds an error, so that it must not be executed.
    pub fn has_errors(&self) -> (yes: bool)
        ensures
            yes == (self@.errors.len() > 0),
    {
        self.errors.len() > 0
    }
}

impl PlanWarning {
    /// A warning about one path.
    pub fn about(kind: WarningKind, path: &FsPath, message: &str) -> (warning: PlanWarning)
        ensures
            warning@ == warning_about(kind, path@, message@),
    {
        let mut paths: Vec<FsPath> = Vec::new();
        paths.push(path.clone());
        let warning = PlanWarning { kind, paths, message: message.to_owned() };
        assert(warning@.paths =~= seq![path@]);
        warning
    }
}

impl PlanError {
    /// An error about one path.
    pub fn about(kind: ErrorKind, path: &FsPath, message: &str) -> (error: PlanError)
        ensures
            error@ == error_about(kind, path@, message@),
    {
        PlanError { kind, path: Some(path.clone()), message: message.to_owned() }
    }
}

} // verus!
