//! Archives pictures into a tree of `root/YYYY/MM/DD` directories.
//!
//! This crate holds the decisions of the archiver, each with a contract
//! that Verus proves: where a picture's capture time comes from, which
//! directory it belongs to, whether a file found there counts as the same
//! picture, and how the outcomes of a batch add up. Reading files, running
//! the metadata tool and copying are left to the caller.

pub mod arguments;
pub mod decimal;
pub mod directory;
pub mod duplicate;
pub mod fatal;
pub mod model;
pub mod orchestrator;
pub mod outcome;
pub mod paths;
pub mod planner;
pub mod report;
pub mod resolver;
pub mod statistics;
pub mod timestamp;
