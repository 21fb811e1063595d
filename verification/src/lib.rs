//! Fans one command template out over a list of arguments: one child process
//! per argument token, labelled output, and a run that ends as soon as one
//! member fails.
//!
//! The crate holds the decisions of such a run as verified functions on plain
//! values. Spawning, reading pipes and waiting are left to the caller, which
//! feeds what it observed to the state machines here and carries out what
//! they answer.

pub mod args;
pub mod common;
pub mod outcome;
pub mod paint;
pub mod report;
pub mod spawner;
pub mod streamer;
pub mod supervisor;
pub mod text;

pub use common::{add_numbers, CommonError, Config};
