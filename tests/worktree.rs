use tumix::error::TumixError;
use tumix::executor::{AgentAction, AgentEvent, AgentExecutor, AgentRun};
use tumix::orchestrator::collect_results;
use tumix::planner::{planner_json, validate_agents, AgentConfig};
use tumix::worktree::{finish_create, CommitPlan, WorktreeManager};

#[test]
fn layout_of_a_run() {
    let m = WorktreeManager::new("/repo", "run7");
    assert_eq!(m.worktrees_root(), "/repo/.tumix/worktrees/run7");
    let m2 = WorktreeManager::new("/repo/", "run7");
    assert_eq!(m2.worktrees_root(), "/repo/.tumix/worktrees/run7");
    let w = m.worktree_for("03");
    assert_eq!(w.path, "/repo/.tumix/worktrees/run7/agent-03");
    assert_eq!(w.branch, "round1-run7-agent-03");
    assert_eq!(w.agent_id, "03");
}

#[test]
fn stale_worktree_is_removed_before_adding() {
    let m = WorktreeManager::new("/repo", "r");
    let plan = m.plan_create("01", true);
    assert!(plan.remove_stale);
    assert_eq!(plan.remove_args, vec!["worktree", "remove", "-f", "/repo/.tumix/worktrees/r/agent-01"]);
    assert_eq!(
        plan.add_args,
        vec!["worktree", "add", "-f", "-B", "round1-r-agent-01", "/repo/.tumix/worktrees/r/agent-01", "HEAD"]
    );
    let fresh = m.plan_create("01", false);
    assert!(!fresh.remove_stale);
    assert_eq!(
        fresh.add_args,
        vec!["worktree", "add", "-B", "round1-r-agent-01", "/repo/.tumix/worktrees/r/agent-01", "HEAD"]
    );
}

#[test]
fn failed_worktree_add_reports_diagnostics() {
    let m = WorktreeManager::new("/repo", "r");
    let ok = finish_create(m.plan_create("02", false), true, "").unwrap();
    assert_eq!(ok.branch, "round1-r-agent-02");
    match finish_create(m.plan_create("02", false), false, "fatal: already exists") {
        Err(TumixError::WorktreeCreationFailed { agent_id, detail }) => {
            assert_eq!(agent_id, "02");
            assert_eq!(detail, "fatal: already exists");
        }
        _ => panic!("expected a creation failure"),
    }
}

#[test]
fn unchanged_tree_keeps_head_twice() {
    let w = WorktreeManager::new("/repo", "r").worktree_for("01");
    for _ in 0..2 {
        match w.plan_commit("tree-a", "head-1", "tree-a") {
            CommitPlan::Unchanged { hash } => assert_eq!(hash, "head-1"),
            _ => panic!("no commit expected"),
        }
    }
}

#[test]
fn changed_tree_commits_on_prior_head() {
    let w = WorktreeManager::new("/repo", "r").worktree_for("07");
    match w.plan_commit("tree-b", "head-1", "tree-a") {
        CommitPlan::Create { parent, message } => {
            assert_eq!(parent, "head-1");
            assert!(message.starts_with("Round 1 - Agent 07"));
            assert_eq!(
                message,
                "Round 1 - Agent 07\n\n🤖 Generated with TUMIX\n\nCo-Authored-By: Agent 07 <agent07@tumix.local>"
            );
        }
        _ => panic!("a commit expected"),
    }
}

fn run_agent(
    exec: &AgentExecutor,
    config: AgentConfig,
    manager: &WorktreeManager,
    run_id: &str,
    commit: &str,
) -> Result<tumix::executor::AgentResult, TumixError> {
    let worktree = manager.worktree_for(&config.id);
    let mut run = AgentRun::new(exec, config, worktree, run_id, "/proj");
    let mut action = run.step(AgentEvent::Start { cancelled: false });
    loop {
        action = match action {
            AgentAction::RunWorker { .. } => run.step(AgentEvent::WorkerExited {
                success: true,
                exit_code: Some(0),
                stderr: String::new(),
            }),
            AgentAction::ReadMetadata { .. } => run.step(AgentEvent::MetadataRead {
                text: Some(r#"{"session_id": "child-1", "rollout_path": "/logs/child-1.jsonl"}"#.to_string()),
            }),
            AgentAction::Record { .. } => run.step(AgentEvent::Recorded { error: None }),
            AgentAction::Commit { .. } => {
                run.step(AgentEvent::Committed { result: Ok(commit.to_string()) })
            }
            AgentAction::Done(r) => return Ok(r),
            AgentAction::Fail(e) => return Err(e),
            AgentAction::Ignore => panic!("event ignored"),
        }
    }
}

#[test]
fn four_agents_end_to_end() {
    let output = r#"```json
[{"id":"01","name":"A","role":"a"},{"id":"02","name":"B","role":"b"},
 {"id":"03","name":"C","role":"c"},{"id":"04","name":"D","role":"d"}]
```"#;
    let json = planner_json(true, output, "").unwrap();
    assert!(json.starts_with('['));
    let configs: Vec<AgentConfig> = (1..=4)
        .map(|i| AgentConfig { id: format!("{i:02}"), name: "n".into(), role: "r".into() })
        .collect();
    let plan = validate_agents(configs).unwrap();
    assert!(plan.warnings.is_empty());

    let run_id = "r42";
    let manager = WorktreeManager::new("/repo", run_id);
    let exec = AgentExecutor::new("abc123".to_string());
    let head = "head-0";
    let mut outcomes = Vec::new();
    for (i, config) in plan.agents.into_iter().enumerate() {
        let w = manager.worktree_for(&config.id);
        assert_eq!(w.path, format!("/repo/.tumix/worktrees/r42/agent-0{}", i + 1));
        assert_eq!(w.branch, format!("round1-r42-agent-0{}", i + 1));
        // the last agent leaves its tree untouched
        let staged = if i == 3 { "tree-0".to_string() } else { format!("tree-{}", i + 1) };
        let hash = match w.plan_commit(&staged, head, "tree-0") {
            CommitPlan::Unchanged { hash } => hash,
            CommitPlan::Create { parent, .. } => {
                assert_eq!(parent, head);
                format!("commit-{}", i + 1)
            }
        };
        outcomes.push(run_agent(&exec, config, &manager, run_id, &hash));
    }
    let report = collect_results(outcomes);
    assert!(report.failures.is_empty());
    let hashes: Vec<&str> = report.results.iter().map(|r| r.commit_hash.as_str()).collect();
    assert_eq!(hashes, vec!["commit-1", "commit-2", "commit-3", "head-0"]);
    assert_eq!(report.results[0].session_id, "child-1");
    assert_eq!(report.results[0].log_path, "/logs/child-1.jsonl");
    assert_eq!(report.results[2].branch, "round1-r42-agent-03");
}
