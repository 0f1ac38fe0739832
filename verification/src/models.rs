//! Shared domain records: projects, threads, runs, worktrees, terminal
//! sessions and artifacts.

use vstd::prelude::*;
use crate::ids::{Timestamp, Uuid};

verus! {

/// A local project (typically a Git repo).
pub struct Project {
    pub id: Uuid,
    pub name: String,
    pub path: String,
    pub is_git_repo: bool,
    pub current_branch: Option<String>,
    pub created_at: Timestamp,
    pub last_opened_at: Timestamp,
}

/// Brief summary of a project's Git status.
pub struct RepoStatusSummary {
    pub branch: String,
    pub dirty: bool,
    pub ahead: usize,
    pub behind: usize,
}

/// A conversation thread within a project.
pub struct Thread {
    pub id: Uuid,
    pub project_id: Uuid,
    pub title: String,
    pub archived: bool,
    pub created_at: Timestamp,
    pub updated_at: Timestamp,
}

/// Run lifecycle states.
#[derive(Clone, Copy, Debug, PartialEq, Eq, Structural)]
pub enum RunState {
    Queued,
    Running,
    WaitingApproval,
    Completed,
    Failed,
    Cancelled,
}

/// A single agent run within a thread.
pub struct Run {
    pub id: Uuid,
    pub thread_id: Uuid,
    pub prompt: String,
    pub state: RunState,
    pub worktree_id: Option<Uuid>,
    pub created_at: Timestamp,
    pub completed_at: Option<Timestamp>,
}

/// A Git worktree for isolated run execution.
pub struct Worktree {
    pub id: Uuid,
    pub project_id: Uuid,
    pub name: String,
    pub path: String,
    pub branch: String,
    pub head_sha: String,
    pub is_active: bool,
    pub created_at: Timestamp,
}

/// A terminal session.
pub struct TerminalSession {
    pub id: Uuid,
    pub project_id: Uuid,
    pub worktree_id: Option<Uuid>,
    pub cwd: String,
    pub exit_code: Option<i32>,
    pub created_at: Timestamp,
    pub closed_at: Option<Timestamp>,
}

/// The kind of a stored artifact.
#[derive(Clone, Copy, Debug, PartialEq, Eq, Structural)]
pub enum ArtifactType {
    Diff,
    Patch,
    Log,
    Summary,
}

/// A stored artifact (diff, patch, log, summary).
pub struct Artifact {
    pub id: Uuid,
    pub run_id: Uuid,
    pub artifact_type: ArtifactType,
    pub file_path: String,
    pub created_at: Timestamp,
}

} // verus!
