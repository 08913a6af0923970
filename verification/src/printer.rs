pub mod options;
pub mod pretty;
