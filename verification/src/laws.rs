//! What holds of every merge and of every install.

pub mod merge;
pub mod install;
pub mod runs;
