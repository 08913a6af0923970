pub mod execution;
pub mod options;
