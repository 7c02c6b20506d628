//! Worktree-based coordination for agents that work on one repository at a
//! time.
//!
//! Each agent claims a bead, works on it in a git worktree of its own, and
//! releases it again: merged, set aside as blocked, or thrown away. Claims
//! are kept in a table whose key is the bead, so that a bead has one owner
//! at most; claims that were abandoned are found by their age and
//! reclaimed.
//!
//! No function of this crate runs git, opens a database or reads the
//! clock. An operation is a function from what has been answered so far to
//! the next request, or to the operation's result; the caller carries each
//! request out and appends what came of it. This is so on three levels:
//!
//! - [`tools`] holds the lifecycle operations. They ask for [`protocol`]
//!   requests: look up a claim, create a worktree, set a status.
//! - [`worktree`] turns the requests on version control into git commands,
//!   and [`workspace`] finds the workspace of a directory.
//! - [`beads`] and [`db`] turn the requests on the tracker and on the claim
//!   table into statements for the database.
//!
//! [`model`] says how the outside world is taken to answer, [`laws`] proves
//! what the operations achieve in every run against such a world, and
//! [`memory`] is a world of that kind to run them against.

pub mod beads;
pub mod claims;
pub mod cli;
pub mod db;
pub mod hash;
pub mod indexer;
pub mod laws;
pub mod memory;
pub mod model;
pub mod protocol;
pub mod text;
pub mod tools;
pub mod updater;
pub mod workspace;
pub mod worktree;
