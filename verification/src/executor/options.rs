use vstd::prelude::*;

verus! {

/// How a plan is to be executed.
#[derive(Debug, Clone, Copy, PartialEq, Eq, Structural)]
pub struct ExecutorOptions {
    /// Execute without asking the operator.
    pub assume_yes: bool,
}

impl Default for ExecutorOptions {
    fn default() -> (options: ExecutorOptions)
        ensures
            !options.assume_yes,
    {
        ExecutorOptions { assume_yes: false }
    }
}

} // verus!
