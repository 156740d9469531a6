//! Per-agent worktrees: where each one lives, on which branch, and what
//! committing its work amounts to. The version-control commands themselves
//! are run by the caller.
use vstd::prelude::*;
use crate::error::TumixError;
use crate::text::{join_path, joined, push_str};
use crate::worker::views;

verus! {

/// An agent's isolated checkout and the branch it works on.
#[derive(Clone, Debug)]
pub struct AgentWorktree {
    pub path: String,
    pub branch: String,
    pub agent_id: String,
}

/// Lays out the worktrees of one run under the repository.
#[derive(Clone, Debug)]
pub struct WorktreeManager {
    repo_root: String,
    worktrees_root: String,
    run_id: String,
}

/// Directory holding the worktrees of run `run` of the repository at `repo`.
pub open spec fn worktrees_dir(repo: Seq<char>, run: Seq<char>) -> Seq<char> {
    joined(repo, ".tumix/worktrees/"@ + run)
}

/// Branch of agent `agent` in run `run`.
pub open spec fn branch_name(run: Seq<char>, agent: Seq<char>) -> Seq<char> {
    "round1-"@ + run + "-agent-"@ + agent
}

/// Worktree directory of agent `agent` under the run's directory `root`.
pub open spec fn worktree_dir(root: Seq<char>, agent: Seq<char>) -> Seq<char> {
    joined(root, "agent-"@ + agent)
}

/// Arguments of `git worktree add` for branch `branch` at `path`: the
/// branch is created, or reset if a crashed attempt left it, at `HEAD`; over
/// stale state the add is forced, so a worktree still registered at the path
/// does not block it.
pub open spec fn add_worktree_args(branch: Seq<char>, path: Seq<char>, stale: bool) -> Seq<Seq<char>> {
    seq!["worktree"@, "add"@] + (if stale {
        seq!["-f"@]
    } else {
        Seq::empty()
    }) + seq!["-B"@, branch, path, "HEAD"@]
}

/// Steps that make an agent's worktree: when something already occupies its
/// path, remove it (`git worktree remove -f`, then the directory itself if it
/// is still there); then add the worktree on its branch, made afresh at `HEAD`.
pub struct CreatePlan {
    pub worktree: AgentWorktree,
    pub remove_stale: bool,
    pub remove_args: Vec<String>,
    pub add_args: Vec<String>,
}

impl WorktreeManager {
    pub closed spec fn repo(&self) -> Seq<char> {
        self.repo_root@
    }

    pub closed spec fn root(&self) -> Seq<char> {
        self.worktrees_root@
    }

    pub closed spec fn run(&self) -> Seq<char> {
        self.run_id@
    }

    /// The layout of run `run_id` in the repository at `repo_path`.
    pub fn new(repo_path: &str, run_id: &str) -> (r: WorktreeManager)
        ensures
            r.repo() == repo_path@,
            r.root() == worktrees_dir(repo_path@, run_id@),
            r.run() == run_id@,
    {
        let mut rel = ".tumix/worktrees/".to_owned();
        push_str(&mut rel, run_id);
        WorktreeManager {
            repo_root: repo_path.to_owned(),
            worktrees_root: join_path(repo_path, rel.as_str()),
            run_id: run_id.to_owned(),
        }
    }

    /// The repository's working directory, where the commands run.
    pub fn repo_root(&self) -> (r: &String)
        ensures
            r@ == self.repo(),
    {
        &self.repo_root
    }

    /// The directory that holds this run's worktrees.
    pub fn worktrees_root(&self) -> (r: &String)
        ensures
            r@ == self.root(),
    {
        &self.worktrees_root
    }

    /// The worktree that agent `agent_id` gets: deterministic from the run
    /// and the agent, so distinct agents never share a path or a branch.
    pub fn worktree_for(&self, agent_id: &str) -> (r: AgentWorktree)
        ensures
            r.path@ == worktree_dir(self.root(), agent_id@),
            r.branch@ == branch_name(self.run(), agent_id@),
            r.agent_id@ == agent_id@,
    {
        let mut branch = "round1-".to_owned();
        push_str(&mut branch, self.run_id.as_str());
        push_str(&mut branch, "-agent-");
        push_str(&mut branch, agent_id);
        let mut rel = "agent-".to_owned();
        push_str(&mut rel, agent_id);
        let path = join_path(self.worktrees_root.as_str(), rel.as_str());
        AgentWorktree { path, branch, agent_id: agent_id.to_owned() }
    }

    /// How to make agent `agent_id`'s worktree, given whether its path is
    /// already occupied by stale state. Stale state is always removed before
    /// the new worktree is added.
    pub fn plan_create(&self, agent_id: &str, path_exists: bool) -> (r: CreatePlan)
        ensures
            r.worktree.path@ == worktree_dir(self.root(), agent_id@),
            r.worktree.branch@ == branch_name(self.run(), agent_id@),
            r.worktree.agent_id@ == agent_id@,
            r.remove_stale == path_exists,
            views(r.remove_args@) == seq!["worktree"@, "remove"@, "-f"@, r.worktree.path@],
            views(r.add_args@) == add_worktree_args(r.worktree.branch@, r.worktree.path@, path_exists),
    {
        let worktree = self.worktree_for(agent_id);
        let mut remove_args: Vec<String> = Vec::new();
        remove_args.push("worktree".to_owned());
        remove_args.push("remove".to_owned());
        remove_args.push("-f".to_owned());
        remove_args.push(worktree.path.clone());
        let mut add_args: Vec<String> = Vec::new();
        add_args.push("worktree".to_owned());
        add_args.push("add".to_owned());
        if path_exists {
            add_args.push("-f".to_owned());
        }
        add_args.push("-B".to_owned());
        add_args.push(worktree.branch.clone());
        add_args.push(worktree.path.clone());
        add_args.push("HEAD".to_owned());
        assert(views(remove_args@) =~= seq!["worktree"@, "remove"@, "-f"@, worktree.path@]);
        assert(views(add_args@) =~= add_worktree_args(worktree.branch@, worktree.path@, path_exists));
        CreatePlan { worktree, remove_stale: path_exists, remove_args, add_args }
    }
}

/// The worktree of `plan` once `git worktree add` has exited: the worktree
/// on success, else the failure with the command's diagnostic output.
pub fn finish_create(plan: CreatePlan, success: bool, stderr: &str) -> (r: Result<
    AgentWorktree,
    TumixError,
>)
    ensures
        success ==> (r matches Ok(w) && w == plan.worktree),
        !success ==> (r matches Err(TumixError::WorktreeCreationFailed { agent_id: a, detail: d })
            && a@ == plan.worktree.agent_id@ && d@ == stderr@),
{
    if success {
        Ok(plan.worktree)
    } else {
        Err(
            TumixError::WorktreeCreationFailed {
                agent_id: plan.worktree.agent_id,
                detail: stderr.to_owned(),
            },
        )
    }
}

/// What committing a worktree amounts to.
pub enum CommitPlan {
    /// The staged tree is the head's tree: no commit; the head stays.
    Unchanged { hash: String },
    /// Commit the staged tree on top of `parent` with `message`.
    Create { parent: String, message: String },
}

/// `CommitPlan` with its strings as character sequences.
pub enum CommitStep {
    Unchanged { hash: Seq<char> },
    Create { parent: Seq<char>, message: Seq<char> },
}

impl CommitPlan {
    pub open spec fn step(&self) -> CommitStep {
        match self {
            CommitPlan::Unchanged { hash } => CommitStep::Unchanged { hash: hash@ },
            CommitPlan::Create { parent, message } => CommitStep::Create {
                parent: parent@,
                message: message@,
            },
        }
    }
}

/// The message of agent `agent`'s commit.
pub open spec fn commit_message(agent: Seq<char>) -> Seq<char> {
    "Round 1 - Agent "@ + agent + "\n\n🤖 Generated with TUMIX\n\nCo-Authored-By: Agent "@ + agent
        + " <agent"@ + agent + "@tumix.local>"@
}

/// The step for a worktree whose staged tree is `staged` and whose head is
/// commit `head` with tree `head_tree`.
pub open spec fn planned_commit(staged: Seq<char>, head: Seq<char>, head_tree: Seq<char>, agent: Seq<
    char,
>) -> CommitStep {
    if staged == head_tree {
        CommitStep::Unchanged { hash: head }
    } else {
        CommitStep::Create { parent: head, message: commit_message(agent) }
    }
}

/// Hash returned by committing, and the head after it, for a worktree whose
/// head (commit and tree) is `head` and whose staged tree is `staged`;
/// `fresh` is the id of the commit made, when one is made.
pub open spec fn commit_effect(
    head: (Seq<char>, Seq<char>),
    staged: Seq<char>,
    fresh: Seq<char>,
    agent: Seq<char>,
) -> (Seq<char>, (Seq<char>, Seq<char>)) {
    match planned_commit(staged, head.0, head.1, agent) {
        CommitStep::Unchanged { hash } => (hash, head),
        CommitStep::Create { .. } => (fresh, (fresh, staged)),
    }
}

impl AgentWorktree {
    /// Decides whether committing this worktree makes a commit: only when the
    /// staged tree differs from the head's.
    pub fn plan_commit(&self, staged_tree: &str, head_commit: &str, head_tree: &str) -> (r: CommitPlan)
        ensures
            r.step() == planned_commit(staged_tree@, head_commit@, head_tree@, self.agent_id@),
    {
        let staged = staged_tree.to_owned();
        let tree = head_tree.to_owned();
        if staged == tree {
            CommitPlan::Unchanged { hash: head_commit.to_owned() }
        } else {
            let id = self.agent_id.as_str();
            let mut message = "Round 1 - Agent ".to_owned();
            push_str(&mut message, id);
            push_str(&mut message, "\n\n🤖 Generated with TUMIX\n\nCo-Authored-By: Agent ");
            push_str(&mut message, id);
            push_str(&mut message, " <agent");
            push_str(&mut message, id);
            push_str(&mut message, "@tumix.local>");
            CommitPlan::Create { parent: head_commit.to_owned(), message }
        }
    }
}

/// Within one run, distinct agents get distinct branches and distinct
/// worktree directories.
pub proof fn lemma_agents_never_share(root: Seq<char>, run: Seq<char>, a: Seq<char>, b: Seq<char>)
    requires
        a != b,
    ensures
        branch_name(run, a) != branch_name(run, b),
        worktree_dir(root, a) != worktree_dir(root, b),
{
    let p = "round1-"@ + run + "-agent-"@;
    assert(branch_name(run, a) =~= p + a);
    assert(branch_name(run, b) =~= p + b);
    if p + a == p + b {
        assert(a =~= (p + a).subrange(p.len() as int, (p + a).len() as int));
        assert(b =~= (p + b).subrange(p.len() as int, (p + b).len() as int));
    }
    let q = if root.len() == 0 {
        "agent-"@
    } else if root.last() == '/' {
        root + "agent-"@
    } else {
        root + seq!['/'] + "agent-"@
    };
    assert(worktree_dir(root, a) =~= q + a);
    assert(worktree_dir(root, b) =~= q + b);
    if q + a == q + b {
        assert(a =~= (q + a).subrange(q.len() as int, (q + a).len() as int));
        assert(b =~= (q + b).subrange(q.len() as int, (q + b).len() as int));
    }
}

/// Committing a worktree again without touching it returns the same hash as
/// the first time and leaves the head where the first commit put it.
pub proof fn lemma_commit_idempotent(
    head: (Seq<char>, Seq<char>),
    staged: Seq<char>,
    first: Seq<char>,
    second: Seq<char>,
    agent: Seq<char>,
)
    ensures
        ({
            let (h1, head1) = commit_effect(head, staged, first, agent);
            let (h2, head2) = commit_effect(head1, staged, second, agent);
            h2 == h1 && head2 == head1
        }),
{
}

/// When the staged tree differs from the head's, committing makes a commit
/// whose parent is the prior head, returns its id and moves the head to it.
pub proof fn lemma_commit_on_change(
    head: (Seq<char>, Seq<char>),
    staged: Seq<char>,
    fresh: Seq<char>,
    agent: Seq<char>,
)
    requires
        staged != head.1,
    ensures
        planned_commit(staged, head.0, head.1, agent) matches CommitStep::Create { parent, .. }
            && parent == head.0,
        commit_effect(head, staged, fresh, agent) == (fresh, (fresh, staged)),
{
}

} // verus!
