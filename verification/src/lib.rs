//! Runtime core of the Cox desktop sidecar: message framing, request
//! routing, run lifecycle, and the parsing and bookkeeping behind projects,
//! threads, worktrees, git output and terminals.

pub mod text;

pub mod framing;
pub mod ids;
pub mod rpc;
pub mod dispatch;
pub mod models;
pub mod runner;
pub mod git;
pub mod worktree;
pub mod project;
pub mod threads;
pub mod terminal;
