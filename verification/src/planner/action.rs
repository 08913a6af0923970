use crate::path::{FsPath, PathView};
use vstd::prelude::*;

verus! {

/// The kind of filesystem object that an action creates or removes.
#[derive(Debug, Clone, Copy, PartialEq, Eq, Structural)]
pub enum FsObjectKind {
    File,
    Directory,
    Symlink,
}

/// One primitive change to the filesystem.
#[derive(Debug, PartialEq, Eq)]
pub enum Action {
    /// Bring a new object into existence.
    Create { path: FsPath, kind: FsObjectKind },
    /// Rename or relocate. `overwrite` records that the destination existed
    /// when the plan was made.
    Move { from: FsPath, to: FsPath, overwrite: bool },
    /// Reserved for changes in place. It has no effect when executed.
    Modify { path: FsPath, description: String },
    /// Remove one object. Planners flatten the removal of a tree into one
    /// action per entry, so `recursive` is false in every plan they make.
    Delete { path: FsPath, kind: FsObjectKind, recursive: bool },
}

/// The mathematical value of an [`Action`].
pub enum ActionView {
    Create { path: PathView, kind: FsObjectKind },
    Move { from: PathView, to: PathView, overwrite: bool },
    Modify { path: PathView, description: Seq<char> },
    Delete { path: PathView, kind: FsObjectKind, recursive: bool },
}

impl View for Action {
    type V = ActionView;

    open spec fn view(&self) -> ActionView {
        match *self {
            Action::Create { path, kind } => ActionView::Create { path: path@, kind },
            Action::Move { from, to, overwrite } => ActionView::Move {
                from: from@,
                to: to@,
                overwrite,
            },
            Action::Modify { path, description } => ActionView::Modify {
                path: path@,
                description: description@,
            },
            Action::Delete { path, kind, recursive } => ActionView::Delete {
                path: path@,
                kind,
                recursive,
            },
        }
    }
}

impl ActionView {
    /// The action creates a regular file.
    pub open spec fn creates_file(self) -> bool {
        self matches ActionView::Create { kind, .. } && kind == FsObjectKind::File
    }

    /// The action creates a directory.
    pub open spec fn creates_dir(self) -> bool {
        self matches ActionView::Create { kind, .. } && kind == FsObjectKind::Directory
    }

    /// The action moves an entry.
    pub open spec fn moves(self) -> bool {
        self is Move
    }

    /// The action removes a file or a symbolic link.
    pub open spec fn deletes_file(self) -> bool {
        self matches ActionView::Delete { kind, .. } && kind != FsObjectKind::Directory
    }

    /// The action removes a directory.
    pub open spec fn deletes_dir(self) -> bool {
        self.deletes(FsObjectKind::Directory)
    }

    /// The action is one that a planner makes: it creates no symbolic link,
    /// changes nothing in place, and leaves no whole tree to one removal.
    pub open spec fn is_plain(self) -> bool {
        match self {
            ActionView::Create { kind, .. } => kind != FsObjectKind::Symlink,
            ActionView::Move { .. } => true,
            ActionView::Modify { .. } => false,
            ActionView::Delete { recursive, .. } => !recursive,
        }
    }

    /// The action removes an object of the given kind.
    pub open spec fn deletes(self, kind: FsObjectKind) -> bool {
        self matches ActionView::Delete { kind: k, .. } && k == kind
    }
}

/// The values of a list of actions, in order.
pub open spec fn action_views(actions: Seq<Action>) -> Seq<ActionView> {
    actions.map_values(|a: Action| a@)
}

/// 1 where `yes` holds, and 0 where it does not.
pub open spec fn one_if(yes: bool) -> nat {
    if yes {
        1
    } else {
        0
    }
}

/// How many of the actions create a regular file.
pub open spec fn count_file_creations(actions: Seq<ActionView>) -> nat
    decreases actions.len(),
{
    if actions.len() == 0 {
        0
    } else {
        count_file_creations(actions.drop_last()) + one_if(actions.last().creates_file())
    }
}

/// How many of the actions create a directory.
pub open spec fn count_dir_creations(actions: Seq<ActionView>) -> nat
    decreases actions.len(),
{
    if actions.len() == 0 {
        0
    } else {
        count_dir_creations(actions.drop_last()) + one_if(actions.last().creates_dir())
    }
}

/// How many of the actions move an entry.
pub open spec fn count_moves(actions: Seq<ActionView>) -> nat
    decreases actions.len(),
{
    if actions.len() == 0 {
        0
    } else {
        count_moves(actions.drop_last()) + one_if(actions.last().moves())
    }
}

/// How many of the actions remove a file or a symbolic link.
pub open spec fn count_file_deletions(actions: Seq<ActionView>) -> nat
    decreases actions.len(),
{
    if actions.len() == 0 {
        0
    } else {
        count_file_deletions(actions.drop_last()) + one_if(actions.last().deletes_file())
    }
}

/// How many of the actions remove a directory.
pub open spec fn count_dir_deletions(actions: Seq<ActionView>) -> nat
    decreases actions.len(),
{
    if actions.len() == 0 {
        0
    } else {
        count_dir_deletions(actions.drop_last()) + one_if(actions.last().deletes_dir())
    }
}

/// Every action is plain.
pub open spec fn all_plain(actions: Seq<ActionView>) -> bool {
    forall|i: int| 0 <= i < actions.len() ==> (#[trigger] actions[i]).is_plain()
}

/// How many of the actions remove an object of the given kind.
pub open spec fn count_deletions_of(actions: Seq<ActionView>, kind: FsObjectKind) -> nat
    decreases actions.len(),
{
    if actions.len() == 0 {
        0
    } else {
        count_deletions_of(actions.drop_last(), kind) + one_if(actions.last().deletes(kind))
    }
}

/// Each action is counted at most once by the five counts of a summary, so
/// together they do not exceed the number of actions.
pub proof fn lemma_counts_bounded(actions: Seq<ActionView>)
    ensures
        count_file_creations(actions) + count_dir_creations(actions) + count_moves(actions)
            + count_file_deletions(actions) + count_dir_deletions(actions) <= actions.len(),
    decreases actions.len(),
{
    if actions.len() > 0 {
        lemma_counts_bounded(actions.drop_last());
    }
}

/// What one more action adds to each count.
pub proof fn lemma_counts_push(actions: Seq<ActionView>, a: ActionView)
    ensures
        count_file_creations(actions.push(a)) == count_file_creations(actions) + one_if(
            a.creates_file(),
        ),
        count_dir_creations(actions.push(a)) == count_dir_creations(actions) + one_if(
            a.creates_dir(),
        ),
        count_moves(actions.push(a)) == count_moves(actions) + one_if(a.moves()),
        count_file_deletions(actions.push(a)) == count_file_deletions(actions) + one_if(
            a.deletes_file(),
        ),
        count_dir_deletions(actions.push(a)) == count_dir_deletions(actions) + one_if(
            a.deletes_dir(),
        ),
{
    assert(actions.push(a).drop_last() =~= actions);
}

impl FsObjectKind {
    /// Whether the kind is a directory.
    pub fn is_dir(&self) -> (yes: bool)
        ensures
            yes == (*self == FsObjectKind::Directory),
    {
        match self {
            FsObjectKind::Directory => true,
            _ => false,
        }
    }
}

impl Clone for Action {
    fn clone(&self) -> (copy: Action)
        ensures
            copy@ == self@,
    {
        match self {
            Action::Create { path, kind } => Action::Create { path: path.clone(), kind: *kind },
            Action::Move { from, to, overwrite } => Action::Move {
                from: from.clone(),
                to: to.clone(),
                overwrite: *overwrite,
            },
            Action::Modify { path, description } => Action::Modify {
                path: path.clone(),
                description: description.clone(),
            },
            Action::Delete { path, kind, recursive } => Action::Delete {
                path: path.clone(),
                kind: *kind,
                recursive: *recursive,
            },
        }
    }
}

} // verus!
