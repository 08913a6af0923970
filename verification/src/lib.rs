//! Previews of `touch`, `mv` and `rm`.
//!
//! A command is planned from a snapshot of the filesystem: the planner reads
//! the snapshot and says, as an ordered list of actions with warnings and
//! errors, what the command would do. The plan is shown as lines of a
//! preview, and the executor turns it into the calls to make on the
//! filesystem, or refuses it. Nothing here touches the filesystem: taking the
//! snapshot, asking the operator and making the calls is left to the
//! caller.

pub mod cli;
pub mod executor;
pub mod path;
pub mod planner;
pub mod printer;
pub mod snapshot;
