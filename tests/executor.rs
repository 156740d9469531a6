use tumix::error::TumixError;
use tumix::executor::{
    agent_prompt, session_metadata, side_channel_path, AgentAction, AgentEvent, AgentExecutor,
    AgentPhase, AgentRun,
};
use tumix::orchestrator::collect_results;
use tumix::planner::AgentConfig;
use tumix::worktree::WorktreeManager;

fn setup() -> AgentRun {
    let exec = AgentExecutor::new("parent-9".to_string());
    assert_eq!(exec.parent_session(), "parent-9");
    let config = AgentConfig { id: "02".into(), name: "Backend".into(), role: "APIs".into() };
    let worktree = WorktreeManager::new("/repo", "r1").worktree_for("02");
    AgentRun::new(&exec, config, worktree, "r1", "/proj")
}

#[test]
fn prompt_and_side_channel() {
    let c = AgentConfig { id: "01".into(), name: "Architect".into(), role: "Design".into() };
    let p = agent_prompt(&c);
    assert!(p.starts_with("\n你的角色：Architect - Design\n\n"));
    assert_eq!(side_channel_path("/proj", "r1", "01"), "/proj/.tumix/agent-r1-01-session.json");
}

#[test]
fn start_runs_worker_in_worktree() {
    let mut run = setup();
    match run.step(AgentEvent::Start { cancelled: false }) {
        AgentAction::RunWorker { args, cwd } => {
            assert_eq!(cwd, "/repo/.tumix/worktrees/r1/agent-02");
            assert_eq!(args[3], "--id-output=/proj/.tumix/agent-r1-02-session.json");
            assert_eq!(args[9], "parent-9");
            assert!(args[10].contains("Backend - APIs"));
        }
        _ => panic!("expected the worker to run"),
    }
    assert_eq!(run.current_phase(), AgentPhase::Running);
}

#[test]
fn cancelled_run_never_starts_worker() {
    let mut run = setup();
    match run.step(AgentEvent::Start { cancelled: true }) {
        AgentAction::Fail(TumixError::Cancelled { agent_id }) => assert_eq!(agent_id, "02"),
        _ => panic!("expected cancellation"),
    }
    assert_eq!(run.current_phase(), AgentPhase::Finished);
}

#[test]
fn worker_failure_keeps_truncated_stderr() {
    let mut run = setup();
    run.step(AgentEvent::Start { cancelled: false });
    let stderr = "x".repeat(1000);
    match run.step(AgentEvent::WorkerExited { success: false, exit_code: Some(3), stderr }) {
        AgentAction::Fail(TumixError::AgentExecutionFailed { agent_id, exit_code, stderr_excerpt }) => {
            assert_eq!(agent_id, "02");
            assert_eq!(exit_code, Some(3));
            assert_eq!(stderr_excerpt.len(), 300);
        }
        _ => panic!("expected an execution failure"),
    }
}

fn to_metadata(run: &mut AgentRun) {
    run.step(AgentEvent::Start { cancelled: false });
    match run.step(AgentEvent::WorkerExited { success: true, exit_code: Some(0), stderr: String::new() }) {
        AgentAction::ReadMetadata { path } => assert_eq!(path, "/proj/.tumix/agent-r1-02-session.json"),
        _ => panic!("expected to read metadata"),
    }
}

#[test]
fn missing_rollout_path_is_a_metadata_error() {
    let mut run = setup();
    to_metadata(&mut run);
    match run.step(AgentEvent::MetadataRead { text: Some(r#"{"session_id": "abc"}"#.into()) }) {
        AgentAction::Fail(TumixError::MissingMetadata { agent_id, field }) => {
            assert_eq!(agent_id, "02");
            assert_eq!(field, "rollout_path");
        }
        _ => panic!("expected missing metadata"),
    }
}

#[test]
fn non_string_session_id_is_a_metadata_error() {
    let mut run = setup();
    to_metadata(&mut run);
    match run.step(AgentEvent::MetadataRead { text: Some(r#"{"session_id": 5, "rollout_path": "p"}"#.into()) }) {
        AgentAction::Fail(TumixError::MissingMetadata { field, .. }) => assert_eq!(field, "session_id"),
        _ => panic!("expected missing metadata"),
    }
}

#[test]
fn unreadable_metadata_fails() {
    let mut run = setup();
    to_metadata(&mut run);
    assert!(matches!(
        run.step(AgentEvent::MetadataRead { text: None }),
        AgentAction::Fail(TumixError::MissingMetadata { .. })
    ));
}

#[test]
fn full_run_records_before_commit() {
    let mut run = setup();
    to_metadata(&mut run);
    let text = r#"{"session_id": "s-77", "rollout_path": "/l/s-77.jsonl", "extra": 1}"#;
    match run.step(AgentEvent::MetadataRead { text: Some(text.into()) }) {
        AgentAction::Record { agent_id, session_id, log_path } => {
            assert_eq!(agent_id, "02");
            assert_eq!(session_id, "s-77");
            assert_eq!(log_path, "/l/s-77.jsonl");
        }
        _ => panic!("expected to record"),
    }
    assert!(matches!(run.step(AgentEvent::Start { cancelled: false }), AgentAction::Ignore));
    match run.step(AgentEvent::Recorded { error: None }) {
        AgentAction::Commit { side_channel } => {
            assert_eq!(side_channel, "/proj/.tumix/agent-r1-02-session.json")
        }
        _ => panic!("expected to commit"),
    }
    match run.step(AgentEvent::Committed { result: Ok("abc".into()) }) {
        AgentAction::Done(r) => {
            assert_eq!(r.agent_id, "02");
            assert_eq!(r.session_id, "s-77");
            assert_eq!(r.commit_hash, "abc");
            assert_eq!(r.branch, "round1-r1-agent-02");
            assert_eq!(r.log_path, "/l/s-77.jsonl");
        }
        _ => panic!("expected a result"),
    }
}

#[test]
fn recorder_and_commit_failures() {
    let mut run = setup();
    to_metadata(&mut run);
    run.step(AgentEvent::MetadataRead { text: Some(r#"{"session_id":"a","rollout_path":"b"}"#.into()) });
    assert!(matches!(
        run.step(AgentEvent::Recorded { error: Some("disk full".into()) }),
        AgentAction::Fail(TumixError::RecorderFailed { .. })
    ));
    let mut run = setup();
    to_metadata(&mut run);
    run.step(AgentEvent::MetadataRead { text: Some(r#"{"session_id":"a","rollout_path":"b"}"#.into()) });
    run.step(AgentEvent::Recorded { error: None });
    match run.step(AgentEvent::Committed { result: Err("locked".into()) }) {
        AgentAction::Fail(TumixError::CommitFailed { agent_id, detail }) => {
            assert_eq!(agent_id, "02");
            assert_eq!(detail, "locked");
        }
        _ => panic!("expected a commit failure"),
    }
}

#[test]
fn session_metadata_names_first_missing_field() {
    assert!(session_metadata("1", Some("a".into()), Some("b".into())).is_ok());
    match session_metadata("1", None, None) {
        Err(TumixError::MissingMetadata { field, .. }) => assert_eq!(field, "session_id"),
        _ => panic!(),
    }
}

#[test]
fn failures_are_kept_beside_results() {
    let report = collect_results(vec![
        Err(TumixError::Cancelled { agent_id: "01".into() }),
        Err(TumixError::CommitFailed { agent_id: "02".into(), detail: "x".into() }),
    ]);
    assert!(report.results.is_empty());
    assert_eq!(report.failures.len(), 2);
}
