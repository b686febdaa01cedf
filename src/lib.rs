//! Finds the default branch of a local Git repository clone from its
//! reference state alone: the remote-tracking `HEAD` when it is recorded,
//! else a local `main` or `master` branch.

pub mod git;
pub mod laws;
pub mod names;
pub mod resolve;
