//! Errors of a run, of the planner and of each agent.
use vstd::prelude::*;

verus! {

/// Why a run, or one agent of it, did not complete.
#[derive(Clone, Debug)]
pub enum TumixError {
    /// The session already has an active run; nothing was started.
    AlreadyRunning { session_id: String },
    /// The planner could not produce a list of agents; no worktree was created.
    PlanningFailed { reason: String },
    /// The worktree of one agent could not be made.
    WorktreeCreationFailed { agent_id: String, detail: String },
    /// The worker process of one agent exited with a failure status.
    AgentExecutionFailed { agent_id: String, exit_code: Option<i32>, stderr_excerpt: String },
    /// The worker exited cleanly but left out a field of its metadata file.
    MissingMetadata { agent_id: String, field: String },
    /// The recorder refused the agent's new session.
    RecorderFailed { agent_id: String, detail: String },
    /// Staging or committing the agent's work failed.
    CommitFailed { agent_id: String, detail: String },
    /// The run was cancelled before this agent started its worker.
    Cancelled { agent_id: String },
}

} // verus!
