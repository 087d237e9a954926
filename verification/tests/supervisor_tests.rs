use agent_engine::supervisor::{AgentStatus, Supervisor, finish_wait};

#[test]
fn register_and_list() {
    let mut s = Supervisor::new();
    assert!(s.register_agent("a1".to_string(), "coder".to_string()).is_ok());
    assert!(s.register_agent("a2".to_string(), "writer".to_string()).is_ok());
    let listed = s.list_agents();
    assert_eq!(listed.len(), 2);
    assert_eq!(listed[0], ("a1".to_string(), "coder".to_string(), AgentStatus::Idle));
    assert_eq!(listed[1], ("a2".to_string(), "writer".to_string(), AgentStatus::Idle));
}

#[test]
fn duplicate_registration_rejected() {
    let mut s = Supervisor::new();
    assert!(s.register_agent("a1".to_string(), "coder".to_string()).is_ok());
    let second = s.register_agent("a1".to_string(), "writer".to_string());
    assert!(second.is_err());
    let listed = s.list_agents();
    assert_eq!(listed.len(), 1);
    assert_eq!(listed[0].1, "coder");
}

#[test]
fn update_status_sets_known_id() {
    let mut s = Supervisor::new();
    s.register_agent("a1".to_string(), "coder".to_string()).unwrap();
    s.update_status("a1", AgentStatus::Running);
    assert_eq!(s.list_agents()[0].2, AgentStatus::Running);
    s.update_status("a1", AgentStatus::Completed);
    assert_eq!(s.list_agents()[0].2, AgentStatus::Completed);
}

#[test]
fn update_status_unknown_id_is_noop() {
    let mut s = Supervisor::new();
    s.register_agent("a1".to_string(), "coder".to_string()).unwrap();
    s.update_status("ghostly", AgentStatus::Failed);
    let listed = s.list_agents();
    assert_eq!(listed.len(), 1);
    assert_eq!(listed[0].2, AgentStatus::Idle);
}

#[test]
fn notify_twice_has_effect_of_once() {
    let mut s = Supervisor::new();
    let displaced = s.open_gate("a1".to_string());
    assert!(!displaced);
    let first = s.notify_approval("a1", true);
    assert_eq!(first, Some(true));
    // The second notification finds no pending gate: silent no-op.
    let second = s.notify_approval("a1", true);
    assert_eq!(second, None);
    assert_eq!(finish_wait(first), true);
}

#[test]
fn denied_approval_delivers_false() {
    let mut s = Supervisor::new();
    s.open_gate("a1".to_string());
    let decision = s.notify_approval("a1", false);
    assert_eq!(decision, Some(false));
    assert_eq!(finish_wait(decision), false);
}

#[test]
fn torn_down_gate_resolves_false() {
    let mut s = Supervisor::new();
    s.open_gate("a1".to_string());
    s.close_gate("a1");
    // The waiter never received a decision; deny by default.
    assert_eq!(finish_wait(None), false);
    assert_eq!(s.notify_approval("a1", true), None);
}

#[test]
fn notify_without_gate_is_noop() {
    let mut s = Supervisor::new();
    assert_eq!(s.notify_approval("nobody", true), None);
}

#[test]
fn reopening_gate_reports_displacement() {
    let mut s = Supervisor::new();
    assert!(!s.open_gate("a1".to_string()));
    assert!(s.open_gate("a1".to_string()));
    assert_eq!(s.notify_approval("a1", true), Some(true));
    assert_eq!(s.notify_approval("a1", true), None);
}
