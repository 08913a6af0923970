use crate::path::{FsPath, PathView};
use vstd::prelude::*;

verus! {

/// How a plan is shown.
#[derive(Debug, PartialEq, Eq)]
pub struct PrinterOptions {
    /// Show the errors and the counters only.
    pub summary_only: bool,
    /// The most actions shown of one group.
    pub max_entries: usize,
    /// Paths below this directory are shown relative to it.
    pub cwd: FsPath,
    pub use_color: bool,
}

/// The mathematical value of a [`PrinterOptions`].
pub struct PrinterOptionsView {
    pub summary_only: bool,
    pub max_entries: nat,
    pub cwd: PathView,
    pub use_color: bool,
}

impl View for PrinterOptions {
    type V = PrinterOptionsView;

    open spec fn view(&self) -> PrinterOptionsView {
        PrinterOptionsView {
            summary_only: self.summary_only,
            max_entries: self.max_entries as nat,
            cwd: self.cwd@,
            use_color: self.use_color,
        }
    }
}

impl PrinterOptions {
    /// Everything shown, at most 50 actions of a group, in colour, with
    /// paths relative to `cwd`.
    pub fn new(cwd: FsPath) -> (options: PrinterOptions)
        ensures
            options@ == (PrinterOptionsView {
                summary_only: false,
                max_entries: 50,
                cwd: cwd@,
                use_color: true,
            }),
    {
        PrinterOptions { summary_only: false, max_entries: 50, cwd, use_color: true }
    }
}

impl Default for PrinterOptions {
    /// The options of [`PrinterOptions::new`] for the directory `.`.
    fn default() -> (options: PrinterOptions)
        ensures
            options@ == (PrinterOptionsView {
                summary_only: false,
                max_entries: 50,
                cwd: seq!["."@],
                use_color: true,
            }),
    {
        let mut parts: Vec<String> = Vec::new();
        parts.push(".".to_owned());
        let cwd = FsPath::new(parts);
        assert(cwd@ =~= seq!["."@]);
        PrinterOptions::new(cwd)
    }
}

} // verus!
