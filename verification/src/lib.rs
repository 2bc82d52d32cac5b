//! Fetches one file of one commit of a git repository: first from a raw-file
//! mirror when the repository lives on GitHub, then by cloning.
//!
//! The crate holds the decisions; reading, sending and spawning are left to
//! the program around it.

pub mod chars;
pub mod cli;
pub mod commands;
pub mod forge;
pub mod pipeline;
pub mod trace;
