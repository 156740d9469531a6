use tumix::session_file::{message_role, recent_messages, session_header, session_meta, tally_session};

fn lines(v: &[&str]) -> Vec<String> {
    v.iter().map(|s| s.to_string()).collect()
}

#[test]
fn meta_from_first_record_and_messages() {
    let l = lines(&[
        r#"{"type":"session_meta","payload":{"id":"abc","cwd":"/work","model":"gpt"}}"#,
        r#"{"type":"user_message","payload":{"content":"hi"}}"#,
        r#"{"type":"assistant_message","payload":{"content":"hello","usage":{"total_tokens":42}}}"#,
        "not json",
        r#"{"type":"tool_call","payload":{}}"#,
    ]);
    let (id, cwd, count, last, tokens, model) = session_meta("f.jsonl", &l);
    assert_eq!(id, "abc");
    assert_eq!(cwd, "/work");
    assert_eq!(count, 2);
    assert_eq!(last, "Assistant");
    assert_eq!(tokens, 42);
    assert_eq!(model, "gpt");
}

#[test]
fn meta_falls_back_to_file_name() {
    let l = lines(&[r#"{"type":"x","payload":{"id":""}}"#]);
    let (id, cwd, count, last, tokens, model) = session_meta("rollout-1.jsonl", &l);
    assert_eq!(id, "rollout-1.jsonl");
    assert_eq!(cwd, "");
    assert_eq!((count, last.as_str(), tokens), (0, "-", 0));
    assert_eq!(model, "unknown");
    let (id, ..) = session_meta("empty.jsonl", &Vec::new());
    assert_eq!(id, "empty.jsonl");
}

#[test]
fn header_and_roles() {
    let h = session_header("f", Some("id".into()), None, Some("m".into()));
    assert_eq!(h, ("id".to_string(), String::new(), "m".to_string()));
    assert_eq!(message_role(&Some("user_message".into())).as_deref(), Some("User"));
    assert_eq!(message_role(&Some("assistant_message".into())).as_deref(), Some("Assistant"));
    assert_eq!(message_role(&Some("other".into())), None);
    assert_eq!(message_role(&None), None);
}

#[test]
fn tally_counts_only_messages() {
    let l = lines(&[
        r#"{"type":"user_message","payload":{"usage":{"total_tokens":7}}}"#,
        r#"{"type":"event","payload":{"usage":{"total_tokens":99}}}"#,
    ]);
    let t = tally_session(&l);
    assert_eq!((t.message_count, t.last_role.as_str(), t.total_tokens), (1, "User", 7));
}

#[test]
fn recent_messages_keeps_last_ones() {
    let l = lines(&[
        r#"{"type":"user_message","payload":{"content":"one","timestamp":"10:00:00"}}"#,
        r#"{"type":"assistant_message","payload":{"content":"two"}}"#,
        r#"{"type":"user_message","payload":{}}"#,
        r#"{"type":"user_message","payload":{"content":"three"}}"#,
    ]);
    let all = recent_messages(&l, 10);
    assert_eq!(all.len(), 3);
    assert_eq!(all[0], ("User".to_string(), "one".to_string(), "10:00:00".to_string()));
    assert_eq!(all[1].2, "--:--:--");
    let last = recent_messages(&l, 2);
    assert_eq!(last.len(), 2);
    assert_eq!(last[0].1, "two");
    assert_eq!(last[1].1, "three");
    assert!(recent_messages(&l, 0).is_empty());
}
