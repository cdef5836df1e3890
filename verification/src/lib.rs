//! Brings local branches up to date with a remote after a fetch.
//!
//! For each local branch the library decides whether to move it forward to
//! its remote counterpart, to delete it because it is gone from the remote
//! and merged, to warn that it holds work of its own, or to leave it alone.
//!
//! The library never runs a command and never looks at a file. It is a set
//! of state machines that are driven from outside: each step hands out a
//! request, and the next step takes the reply.
//!
//! - [`command`]: the requests and the replies.
//! - [`git`]: what the reply to each `git` command means.
//! - [`tracking`] and [`status`]: which remote a branch tracks, and how it
//!   stands towards the remote that is synced.
//! - [`setup`]: the steps before a run.
//! - [`session`]: the work on one branch.
//! - [`run`]: the work on all branches, one after the other.
//! - [`report`]: what to tell the user.
//! - [`laws`]: what holds of every session and every run.
//! - [`text`]: lines, fields and names in the output of commands.

pub mod command;
pub mod git;
pub mod laws;
pub mod report;
pub mod run;
pub mod session;
pub mod setup;
pub mod status;
pub mod text;
pub mod tracking;
