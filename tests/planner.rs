use tumix::error::TumixError;
use tumix::planner::{
    command_script, expected_agent_id, extract_json, planner_json, planning_prompt, validate_agents, AgentConfig,
    PLANNING_INSTRUCTIONS,
};
use tumix::worker::worker_command_args;

fn config(id: &str) -> AgentConfig {
    AgentConfig { id: id.to_string(), name: format!("Agent {id}"), role: "Testing".to_string() }
}

#[test]
fn test_extract_json_with_markers() {
    let text = r#"
Sure, here are the agents:

```json
[
  {"id": "01", "name": "Test", "role": "Testing"}
]
```

Hope this helps!
        "#;

    let result = extract_json(text).unwrap();
    assert!(result.contains("\"id\""));
}

#[test]
fn test_extract_json_plain() {
    let text = r#"
[
  {"id": "01", "name": "Test", "role": "Testing"}
]
        "#;

    let result = extract_json(text).unwrap();
    assert!(result.starts_with('['));
}

#[test]
fn tagged_block_yields_exact_array() {
    let array = r#"[{"id":"01","name":"A","role":"B"}]"#;
    let text = format!("Here you go:\n```json\n{array}\n```\nDone.");
    assert_eq!(extract_json(&text).unwrap(), array);
}

#[test]
fn bare_array_yields_exact_array() {
    let array = r#"[{"id":"01","name":"A","role":"B"}]"#;
    let text = format!("The plan is {array} as requested.");
    assert_eq!(extract_json(&text).unwrap(), array);
}

#[test]
fn no_brackets_fails_extraction() {
    let r = extract_json("no structured data here at all");
    assert!(matches!(r, Err(TumixError::PlanningFailed { .. })));
}

#[test]
fn untagged_fence_skips_language_line() {
    let text = "```text\n[1, 2]\n```";
    assert_eq!(extract_json(text).unwrap(), "[1, 2]");
}

#[test]
fn unclosed_fence_falls_back_to_brackets() {
    assert_eq!(extract_json("```json [1]").unwrap(), "[1]");
    assert_eq!(extract_json("```json\n[1, 2]\n").unwrap(), "[1, 2]");
}

#[test]
fn bracket_order_reversed_fails() {
    assert!(extract_json("] then [").is_err());
}

#[test]
fn nonzero_exit_with_output_is_tolerated() {
    let r = planner_json(false, "[{\"id\":\"01\"}]", "warning: something");
    assert_eq!(r.unwrap(), "[{\"id\":\"01\"}]");
}

#[test]
fn nonzero_exit_with_blank_output_fails() {
    match planner_json(false, "  \n\t", "boom") {
        Err(TumixError::PlanningFailed { reason }) => assert_eq!(reason, "the planner failed: boom"),
        other => panic!("unexpected {other:?}"),
    }
}

#[test]
fn clean_exit_with_blank_output_fails_with_stderr_excerpt() {
    let stderr = "e".repeat(600);
    match planner_json(true, "", &stderr) {
        Err(TumixError::PlanningFailed { reason }) => {
            assert_eq!(reason, format!("the planner produced no output; stderr: {}", "e".repeat(500)))
        }
        other => panic!("unexpected {other:?}"),
    }
}

#[test]
fn sequential_ids_pass_without_warnings() {
    let agents: Vec<AgentConfig> = ["01", "02", "03", "04", "05"].iter().map(|i| config(i)).collect();
    let plan = validate_agents(agents).unwrap();
    assert_eq!(plan.agents.len(), 5);
    assert!(plan.warnings.is_empty());
}

#[test]
fn out_of_order_ids_still_succeed() {
    let agents: Vec<AgentConfig> = ["01", "03", "02"].iter().map(|i| config(i)).collect();
    let plan = validate_agents(agents).unwrap();
    assert_eq!(plan.agents.len(), 3);
    let ids: Vec<&str> = plan.agents.iter().map(|a| a.id.as_str()).collect();
    assert_eq!(ids, vec!["01", "03", "02"]);
    assert_eq!(plan.warnings.len(), 2);
    assert_eq!(plan.warnings[0].index, 1);
    assert_eq!(plan.warnings[0].found, "03");
    assert_eq!(plan.warnings[0].expected, "02");
    assert_eq!(plan.warnings[1].index, 2);
    assert_eq!(plan.warnings[1].expected, "03");
}

#[test]
fn empty_plan_fails() {
    assert!(matches!(validate_agents(Vec::new()), Err(TumixError::PlanningFailed { .. })));
}

#[test]
fn expected_ids_are_zero_padded() {
    assert_eq!(expected_agent_id(0), "01");
    assert_eq!(expected_agent_id(8), "09");
    assert_eq!(expected_agent_id(9), "10");
    assert_eq!(expected_agent_id(14), "15");
    assert_eq!(expected_agent_id(99), "100");
}

#[test]
fn planning_prompt_with_and_without_task() {
    assert_eq!(planning_prompt(None), format!("\n{PLANNING_INSTRUCTIONS}"));
    assert_eq!(
        planning_prompt(Some("add a login page")),
        format!("\n用户任务：add a login page\n\n{PLANNING_INSTRUCTIONS}")
    );
    assert!(PLANNING_INSTRUCTIONS.contains("\"id\": \"01\""));
}

#[test]
fn worker_arguments_for_planning_and_agents() {
    let plan = worker_command_args(None, "abc123", "go");
    assert_eq!(
        plan,
        vec![
            "exec",
            "--print-rollout-path",
            "--skip-git-repo-check",
            "--sandbox",
            "danger-full-access",
            "--model",
            "gpt-5-codex-high",
            "resume-clone",
            "abc123",
            "go"
        ]
    );
    let agent = worker_command_args(Some("/tmp/x.json"), "abc123", "go");
    assert_eq!(agent.len(), 11);
    assert_eq!(agent[3], "--id-output=/tmp/x.json");
}

#[test]
fn planning_script_quotes_prompt() {
    let args = vec!["exec".to_string(), "resume-clone".to_string(), "abc".to_string()];
    let script = command_script("2024-01-01 00:00:00", "codex", &args, "say \"hi\"");
    assert_eq!(
        script,
        "#!/bin/bash\n# Meta-agent command executed at 2024-01-01 00:00:00\n\ncodex \\\n  exec \\\n  resume-clone \\\n  abc \\\n  \"say \\\"hi\\\"\"\n"
    );
}
