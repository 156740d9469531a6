use tumix::error::TumixError;
use tumix::registry::{cancel_all, cancel_session, register_run, release_run, RunRegistry};

#[test]
fn second_registration_fails_until_release() {
    let mut reg = RunRegistry::new();
    let guard = register_run(&mut reg, "s1", "r1").unwrap();
    assert_eq!(guard.descriptor().session_id, "s1");
    assert_eq!(guard.descriptor().run_id, "r1");
    match register_run(&mut reg, "s1", "r2") {
        Err(TumixError::AlreadyRunning { session_id }) => assert_eq!(session_id, "s1"),
        _ => panic!("expected AlreadyRunning"),
    }
    assert!(reg.is_active("s1"));
    release_run(&mut reg, guard);
    assert!(!reg.is_active("s1"));
    let again = register_run(&mut reg, "s1", "r2").unwrap();
    assert_eq!(again.descriptor().run_id, "r2");
}

#[test]
fn different_sessions_run_side_by_side() {
    let mut reg = RunRegistry::new();
    let _a = register_run(&mut reg, "a", "1").unwrap();
    let _b = register_run(&mut reg, "b", "2").unwrap();
    assert!(reg.is_active("a") && reg.is_active("b"));
}

#[test]
fn cancel_session_returns_descriptor_and_signals_token() {
    let mut reg = RunRegistry::new();
    let guard = register_run(&mut reg, "s1", "r1").unwrap();
    let token = guard.token();
    assert!(!token.is_cancelled());
    let d = cancel_session(&reg, "s1").unwrap();
    assert_eq!(d.session_id, "s1");
    assert_eq!(d.run_id, "r1");
    assert!(token.is_cancelled());
    assert!(cancel_session(&reg, "other").is_none());
}

#[test]
fn cancel_session_without_run_is_none() {
    let reg = RunRegistry::new();
    assert!(cancel_session(&reg, "s1").is_none());
}

#[test]
fn cancel_all_lists_every_active_run() {
    let mut reg = RunRegistry::new();
    let a = register_run(&mut reg, "a", "1").unwrap();
    let b = register_run(&mut reg, "b", "2").unwrap();
    let mut all: Vec<(String, String)> =
        cancel_all(&reg).into_iter().map(|d| (d.session_id, d.run_id)).collect();
    all.sort();
    assert_eq!(all, vec![("a".to_string(), "1".to_string()), ("b".to_string(), "2".to_string())]);
    assert!(a.token().is_cancelled());
    assert!(b.token().is_cancelled());
    release_run(&mut reg, a);
    assert_eq!(cancel_all(&reg).len(), 1);
}
