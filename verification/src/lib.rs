//! Picks a random desktop background from a directory, never repeating the
//! background that was applied last.
//!
//! The crate holds the decisions of one run: which directory entries qualify
//! as images, which of them form the candidate pool once the remembered
//! selection is taken out, how one of them is drawn, and what has to be
//! recorded and announced once the change command has finished.

pub mod applier;
pub mod config;
pub mod error;
pub mod memory;
pub mod notice;
pub mod paths;
pub mod picker;
pub mod run;
pub mod scanner;
