//! One agent's run: its worker invocation in its worktree, the recovery of
//! the worker's session metadata, and the commit of its work. The steps that
//! touch processes and files are performed by the caller; this module decides
//! what comes next from what they returned.
use vstd::prelude::*;
use crate::error::TumixError;
use crate::json::{json_str_at, json_text_at};
use crate::planner::AgentConfig;
use crate::text::{join_path, joined, prefix, push_str, take_chars};
use crate::worker::{views, worker_args, worker_command_args};
use crate::worktree::AgentWorktree;

verus! {

/// What one agent produced: a new child conversation and a commit of its work.
#[derive(Clone, Debug)]
pub struct AgentResult {
    pub agent_id: String,
    pub session_id: String,
    pub commit_hash: String,
    pub branch: String,
    pub log_path: String,
}

/// What every agent is told after its role.
pub const ROLE_INSTRUCTIONS: &'static str =
    "\n\n基于之前对话中用户的需求，请从你的专业角度实现解决方案。\n直接开始编写代码，完成后系统会自动提交。\n";

/// The prompt that gives an agent its role.
pub open spec fn agent_prompt_text(name: Seq<char>, role: Seq<char>) -> Seq<char> {
    "\n你的角色："@ + name + " - "@ + role + ROLE_INSTRUCTIONS@
}

/// Where the worker of agent `agent` in run `run` leaves its session metadata.
pub open spec fn side_channel(root: Seq<char>, run: Seq<char>, agent: Seq<char>) -> Seq<char> {
    joined(root, ".tumix/agent-"@ + run + "-"@ + agent + "-session.json"@)
}

/// Runs agents as clones of one parent conversation.
#[derive(Clone, Debug)]
pub struct AgentExecutor {
    parent_session: String,
}

impl AgentExecutor {
    pub closed spec fn parent(&self) -> Seq<char> {
        self.parent_session@
    }

    /// An executor whose agents fork `parent_session`.
    pub fn new(parent_session: String) -> (r: AgentExecutor)
        ensures
            r.parent() == parent_session@,
    {
        AgentExecutor { parent_session }
    }

    /// The conversation every agent forks.
    pub fn parent_session(&self) -> (r: &String)
        ensures
            r@ == self.parent(),
    {
        &self.parent_session
    }
}

/// The prompt that gives `config`'s agent its role.
pub fn agent_prompt(config: &AgentConfig) -> (r: String)
    ensures
        r@ == agent_prompt_text(config.name@, config.role@),
{
    let mut p = "\n你的角色：".to_owned();
    push_str(&mut p, config.name.as_str());
    push_str(&mut p, " - ");
    push_str(&mut p, config.role.as_str());
    push_str(&mut p, ROLE_INSTRUCTIONS);
    p
}

/// The side-channel file of agent `agent_id` in run `run_id`, under `root`.
pub fn side_channel_path(root: &str, run_id: &str, agent_id: &str) -> (r: String)
    ensures
        r@ == side_channel(root@, run_id@, agent_id@),
{
    let mut rel = ".tumix/agent-".to_owned();
    push_str(&mut rel, run_id);
    push_str(&mut rel, "-");
    push_str(&mut rel, agent_id);
    push_str(&mut rel, "-session.json");
    join_path(root, rel.as_str())
}

/// The session id and transcript path that the worker reported, or the
/// error that names the first missing one.
pub fn session_metadata(agent_id: &str, session_id: Option<String>, log_path: Option<String>) -> (r:
    Result<(String, String), TumixError>)
    ensures
        match (session_id, log_path) {
            (Some(s), Some(l)) => r matches Ok((a, b)) && a@ == s@ && b@ == l@,
            (None, _) => r matches Err(TumixError::MissingMetadata { agent_id: a, field: f }) && a@
                == agent_id@ && f@ == "session_id"@,
            (Some(_), None) => r matches Err(TumixError::MissingMetadata { agent_id: a, field: f })
                && a@ == agent_id@ && f@ == "rollout_path"@,
        },
{
    match (session_id, log_path) {
        (Some(s), Some(l)) => Ok((s, l)),
        (None, _) => Err(
            TumixError::MissingMetadata { agent_id: agent_id.to_owned(), field: "session_id".to_owned() },
        ),
        (Some(_), None) => Err(
            TumixError::MissingMetadata {
                agent_id: agent_id.to_owned(),
                field: "rollout_path".to_owned(),
            },
        ),
    }
}

/// Where an agent's run stands.
#[derive(Clone, Copy, Debug, PartialEq, Eq, Structural)]
pub enum AgentPhase {
    /// Not started.
    Ready,
    /// The worker process is running.
    Running,
    /// The worker exited cleanly; its metadata file is being read.
    AwaitingMetadata,
    /// The new session is being handed to the recorder.
    Recording,
    /// The agent's work is being committed.
    Committing,
    /// Done, with a result or an error.
    Finished,
}

/// What the caller observed after performing the last action.
pub enum AgentEvent {
    /// The run may start; `cancelled` is the state of the run's token.
    Start { cancelled: bool },
    /// The worker process exited.
    WorkerExited { success: bool, exit_code: Option<i32>, stderr: String },
    /// The metadata file's text, or `None` when it could not be read.
    MetadataRead { text: Option<String> },
    /// The recorder's answer: `None` on success, else its error.
    Recorded { error: Option<String> },
    /// The commit hash, or the version-control error.
    Committed { result: Result<String, String> },
}

/// What the caller is to do next.
pub enum AgentAction {
    /// Run the worker with `args` in the directory `cwd`.
    RunWorker { args: Vec<String>, cwd: String },
    /// Read the metadata file at `path`.
    ReadMetadata { path: String },
    /// Hand the new session to the recorder.
    Record { agent_id: String, session_id: String, log_path: String },
    /// Delete the side-channel file (failure ignored), then commit the worktree.
    Commit { side_channel: String },
    /// The agent finished with this result.
    Done(AgentResult),
    /// The agent failed.
    Fail(TumixError),
    /// The event did not fit the run's phase and was ignored.
    Ignore,
}

/// The state of one agent's run.
pub struct AgentRun {
    config: AgentConfig,
    worktree: AgentWorktree,
    parent_session: String,
    side_channel: String,
    phase: AgentPhase,
    session_id: String,
    log_path: String,
}

impl AgentRun {
    pub closed spec fn phase(&self) -> AgentPhase {
        self.phase
    }

    pub closed spec fn config(&self) -> AgentConfig {
        self.config
    }

    pub closed spec fn worktree(&self) -> AgentWorktree {
        self.worktree
    }

    pub closed spec fn parent(&self) -> Seq<char> {
        self.parent_session@
    }

    pub closed spec fn side_channel(&self) -> Seq<char> {
        self.side_channel@
    }

    /// Session id and transcript path recovered from the worker.
    pub closed spec fn session(&self) -> (Seq<char>, Seq<char>) {
        (self.session_id@, self.log_path@)
    }

    /// A run of `config`'s agent in `worktree`, for run `run_id`, whose
    /// side-channel file lies under `root`.
    pub fn new(executor: &AgentExecutor, config: AgentConfig, worktree: AgentWorktree, run_id: &str, root: &str) -> (r: AgentRun)
        ensures
            r.phase() == AgentPhase::Ready,
            r.config() == config,
            r.worktree() == worktree,
            r.parent() == executor.parent(),
            r.side_channel() == side_channel(root@, run_id@, config.id@),
    {
        let side = side_channel_path(root, run_id, config.id.as_str());
        AgentRun {
            config,
            worktree,
            parent_session: executor.parent_session().clone(),
            side_channel: side,
            phase: AgentPhase::Ready,
            session_id: String::new(),
            log_path: String::new(),
        }
    }

    /// Where the run stands.
    pub fn current_phase(&self) -> (r: AgentPhase)
        ensures
            r == self.phase(),
    {
        self.phase
    }

    /// Advances the run by one observed event and says what to do next.
    pub fn step(&mut self, event: AgentEvent) -> (r: AgentAction)
        ensures
            final(self).config() == old(self).config(),
            final(self).worktree() == old(self).worktree(),
            final(self).parent() == old(self).parent(),
            final(self).side_channel() == old(self).side_channel(),
            match (old(self).phase(), event) {
                (AgentPhase::Ready, AgentEvent::Start { cancelled: true }) => final(self).phase()
                    == AgentPhase::Finished && (r matches AgentAction::Fail(
                    TumixError::Cancelled { agent_id: a },
                ) && a@ == old(self).config().id@),
                (AgentPhase::Ready, AgentEvent::Start { cancelled: false }) => final(self).phase()
                    == AgentPhase::Running && (r matches AgentAction::RunWorker { args, cwd } && views(
                    args@,
                ) == worker_args(
                    Some(old(self).side_channel()),
                    old(self).parent(),
                    agent_prompt_text(old(self).config().name@, old(self).config().role@),
                ) && cwd@ == old(self).worktree().path@),
                (AgentPhase::Running, AgentEvent::WorkerExited { success: false, exit_code, stderr }) =>
                final(self).phase() == AgentPhase::Finished && (r matches AgentAction::Fail(
                    TumixError::AgentExecutionFailed { agent_id: a, exit_code: c, stderr_excerpt: e },
                ) && a@ == old(self).config().id@ && c == exit_code && e@ == prefix(stderr@, 300)),
                (AgentPhase::Running, AgentEvent::WorkerExited { success: true, .. }) => final(self).phase() == AgentPhase::AwaitingMetadata && (r matches AgentAction::ReadMetadata {
                    path,
                } && path@ == old(self).side_channel()),
                (AgentPhase::AwaitingMetadata, AgentEvent::MetadataRead { text: None }) => final(self).phase() == AgentPhase::Finished && (r matches AgentAction::Fail(
                    TumixError::MissingMetadata { agent_id: a, field: f },
                ) && a@ == old(self).config().id@ && f@ == "session metadata file"@),
                (AgentPhase::AwaitingMetadata, AgentEvent::MetadataRead { text: Some(t) }) => match (
                    json_text_at(t@, "/session_id"@),
                    json_text_at(t@, "/rollout_path"@),
                ) {
                    (Some(s), Some(l)) => final(self).phase() == AgentPhase::Recording && final(self).session() == (s, l) && (r matches AgentAction::Record {
                        agent_id: a,
                        session_id: s2,
                        log_path: l2,
                    } && a@ == old(self).config().id@ && s2@ == s && l2@ == l),
                    (None, _) => final(self).phase() == AgentPhase::Finished && (r matches AgentAction::Fail(
                        TumixError::MissingMetadata { agent_id: a, field: f },
                    ) && a@ == old(self).config().id@ && f@ == "session_id"@),
                    (Some(_), None) => final(self).phase() == AgentPhase::Finished && (
                    r matches AgentAction::Fail(TumixError::MissingMetadata { agent_id: a, field: f })
                        && a@ == old(self).config().id@ && f@ == "rollout_path"@),
                },
                (AgentPhase::Recording, AgentEvent::Recorded { error: None }) => final(self).phase()
                    == AgentPhase::Committing && final(self).session() == old(self).session() && (
                r matches AgentAction::Commit { side_channel: p } && p@ == old(self).side_channel()),
                (AgentPhase::Recording, AgentEvent::Recorded { error: Some(d) }) => final(self).phase()
                    == AgentPhase::Finished && (r matches AgentAction::Fail(
                    TumixError::RecorderFailed { agent_id: a, detail: d2 },
                ) && a@ == old(self).config().id@ && d2@ == d@),
                (AgentPhase::Committing, AgentEvent::Committed { result: Ok(h) }) => final(self).phase()
                    == AgentPhase::Finished && (r matches AgentAction::Done(res) && res.agent_id@
                    == old(self).config().id@ && res.session_id@ == old(self).session().0
                    && res.log_path@ == old(self).session().1 && res.commit_hash@ == h@
                    && res.branch@ == old(self).worktree().branch@),
                (AgentPhase::Committing, AgentEvent::Committed { result: Err(d) }) => final(self).phase()
                    == AgentPhase::Finished && (r matches AgentAction::Fail(
                    TumixError::CommitFailed { agent_id: a, detail: d2 },
                ) && a@ == old(self).config().id@ && d2@ == d@),
                _ => final(self).phase() == old(self).phase() && final(self).session() == old(self).session() && r is Ignore,
            },
    {
        let agent_id = self.config.id.clone();
        match (self.phase, event) {
            (AgentPhase::Ready, AgentEvent::Start { cancelled }) => {
                self.phase = AgentPhase::Finished;
                if cancelled {
                    return AgentAction::Fail(TumixError::Cancelled { agent_id });
                }
                self.phase = AgentPhase::Running;
                let prompt = agent_prompt(&self.config);
                let args = worker_command_args(
                    Some(self.side_channel.as_str()),
                    self.parent_session.as_str(),
                    prompt.as_str(),
                );
                AgentAction::RunWorker { args, cwd: self.worktree.path.clone() }
            },
            (AgentPhase::Running, AgentEvent::WorkerExited { success, exit_code, stderr }) => {
                if success {
                    self.phase = AgentPhase::AwaitingMetadata;
                    AgentAction::ReadMetadata { path: self.side_channel.clone() }
                } else {
                    self.phase = AgentPhase::Finished;
                    let excerpt = take_chars(stderr.as_str(), 300);
                    AgentAction::Fail(
                        TumixError::AgentExecutionFailed { agent_id, exit_code, stderr_excerpt: excerpt },
                    )
                }
            },
            (AgentPhase::AwaitingMetadata, AgentEvent::MetadataRead { text }) => {
                self.phase = AgentPhase::Finished;
                match text {
                    None => AgentAction::Fail(
                        TumixError::MissingMetadata {
                            agent_id,
                            field: "session metadata file".to_owned(),
                        },
                    ),
                    Some(t) => {
                        let s = json_str_at(t.as_str(), "/session_id");
                        let l = json_str_at(t.as_str(), "/rollout_path");
                        match session_metadata(agent_id.as_str(), s, l) {
                            Ok((s, l)) => {
                                self.phase = AgentPhase::Recording;
                                self.session_id = s.clone();
                                self.log_path = l.clone();
                                AgentAction::Record { agent_id, session_id: s, log_path: l }
                            },
                            Err(e) => AgentAction::Fail(e),
                        }
                    },
                }
            },
            (AgentPhase::Recording, AgentEvent::Recorded { error }) => match error {
                None => {
                    self.phase = AgentPhase::Committing;
                    AgentAction::Commit { side_channel: self.side_channel.clone() }
                },
                Some(detail) => {
                    self.phase = AgentPhase::Finished;
                    AgentAction::Fail(TumixError::RecorderFailed { agent_id, detail })
                },
            },
            (AgentPhase::Committing, AgentEvent::Committed { result }) => {
                self.phase = AgentPhase::Finished;
                match result {
                    Ok(hash) => AgentAction::Done(
                        AgentResult {
                            agent_id,
                            session_id: self.session_id.clone(),
                            commit_hash: hash,
                            branch: self.worktree.branch.clone(),
                            log_path: self.log_path.clone(),
                        },
                    ),
                    Err(detail) => AgentAction::Fail(TumixError::CommitFailed { agent_id, detail }),
                }
            },
            _ => AgentAction::Ignore,
        }
    }
}

} // verus!
