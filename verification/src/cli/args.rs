use crate::path::{path_views, FsPath, PathView};
use vstd::prelude::*;

verus! {

/// One invocation: the command and the flags that hold for every command.
#[derive(Debug, PartialEq, Eq)]
pub struct Cli {
    pub command: Command,
    /// Disable colored output.
    pub no_color: bool,
    /// Only show a summary of changes, hiding specific paths.
    pub summary_only: bool,
    /// Limit the preview to this many entries of a group. 50 where it is
    /// not given.
    pub max_entries: Option<usize>,
    /// Skip confirmation and execute immediately after the preview.
    pub yes: bool,
}

/// What is to be previewed.
#[derive(Debug, PartialEq, Eq)]
pub enum Command {
    /// The creation of files.
    Touch { targets: Vec<FsPath> },
    /// The move or renaming of files and directories.
    Mv { sources: Vec<FsPath>, target: FsPath, force: bool },
    /// The removal of files and directories.
    Rm { targets: Vec<FsPath>, recursive: bool, force: bool },
}

/// The mathematical value of a [`Command`].
pub enum CommandView {
    Touch { targets: Seq<PathView> },
    Mv { sources: Seq<PathView>, target: PathView, force: bool },
    Rm { targets: Seq<PathView>, recursive: bool, force: bool },
}

impl View for Command {
    type V = CommandView;

    open spec fn view(&self) -> CommandView {
        match *self {
            Command::Touch { targets } => CommandView::Touch { targets: path_views(targets@) },
            Command::Mv { sources, target, force } => CommandView::Mv {
                sources: path_views(sources@),
                target: target@,
                force,
            },
            Command::Rm { targets, recursive, force } => CommandView::Rm {
                targets: path_views(targets@),
                recursive,
                force,
            },
        }
    }
}

/// The mathematical value of a [`Cli`].
pub struct CliView {
    pub command: CommandView,
    pub no_color: bool,
    pub summary_only: bool,
    pub max_entries: Option<usize>,
    pub yes: bool,
}

impl View for Cli {
    type V = CliView;

    open spec fn view(&self) -> CliView {
        CliView {
            command: self.command@,
            no_color: self.no_color,
            summary_only: self.summary_only,
            max_entries: self.max_entries,
            yes: self.yes,
        }
    }
}

} // verus!
