pub mod action;
pub mod mv;
pub mod plan;
pub mod rm;
pub mod touch;
pub mod traits;
