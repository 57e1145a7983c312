use playground_core::{io_outcome, kill_outcome, IoStep, McpError, McpProcesses, StreamKind};

#[test]
fn new_registry_runs_nothing() {
    let registry: McpProcesses<u32> = McpProcesses::new();
    assert!(!registry.is_running("alpha"));
    assert!(!registry.is_running(""));
    let by_default: McpProcesses<u32> = McpProcesses::default();
    assert!(!by_default.is_running("alpha"));
}

#[test]
fn registered_server_is_running_until_unregistered() {
    let mut registry: McpProcesses<u32> = McpProcesses::new();
    assert_eq!(registry.register("alpha".to_string(), 101), None);
    assert!(registry.is_running("alpha"));
    assert_eq!(registry.unregister("alpha"), Some(101));
    assert!(!registry.is_running("alpha"));
}

#[test]
fn unregister_of_unknown_name_is_a_no_op_every_time() {
    let mut registry: McpProcesses<u32> = McpProcesses::new();
    registry.register("alpha".to_string(), 101);
    assert_eq!(registry.unregister("ghost"), None);
    assert_eq!(registry.unregister("ghost"), None);
    assert_eq!(registry.unregister("ghost"), None);
    assert!(registry.is_running("alpha"));
    assert_eq!(kill_outcome(None).map_err(|e| e.message()), Ok(()));
}

#[test]
fn unregister_twice_removes_once() {
    let mut registry: McpProcesses<u32> = McpProcesses::new();
    registry.register("alpha".to_string(), 101);
    assert_eq!(registry.unregister("alpha"), Some(101));
    assert_eq!(registry.unregister("alpha"), None);
}

#[test]
fn distinct_names_are_registered_independently() {
    let mut one: McpProcesses<u32> = McpProcesses::new();
    one.register("alpha".to_string(), 1);
    one.register("beta".to_string(), 2);
    let mut other: McpProcesses<u32> = McpProcesses::new();
    other.register("beta".to_string(), 2);
    other.register("alpha".to_string(), 1);
    for registry in [&mut one, &mut other] {
        assert!(registry.is_running("alpha"));
        assert!(registry.is_running("beta"));
        assert_eq!(registry.handle_mut("alpha").ok().copied(), Some(1));
        assert_eq!(registry.handle_mut("beta").ok().copied(), Some(2));
    }
}

#[test]
fn unregister_leaves_the_other_servers_alone() {
    let mut registry: McpProcesses<&'static str> = McpProcesses::new();
    registry.register("alpha".to_string(), "a");
    registry.register("beta".to_string(), "b");
    registry.register("gamma".to_string(), "c");
    assert_eq!(registry.unregister("beta"), Some("b"));
    assert!(registry.is_running("alpha"));
    assert!(!registry.is_running("beta"));
    assert!(registry.is_running("gamma"));
    assert_eq!(registry.handle_mut("alpha").ok().copied(), Some("a"));
    assert_eq!(registry.handle_mut("gamma").ok().copied(), Some("c"));
}

#[test]
fn registering_a_taken_name_displaces_the_old_handle() {
    let mut registry: McpProcesses<u32> = McpProcesses::new();
    assert_eq!(registry.register("alpha".to_string(), 1), None);
    assert_eq!(registry.register("alpha".to_string(), 2), Some(1));
    assert!(registry.is_running("alpha"));
    assert_eq!(registry.handle_mut("alpha").ok().copied(), Some(2));
    assert_eq!(registry.unregister("alpha"), Some(2));
    assert!(!registry.is_running("alpha"));
}

#[test]
fn reregistered_name_leads_to_the_new_handle() {
    let mut registry: McpProcesses<Vec<u8>> = McpProcesses::new();
    registry.register("alpha".to_string(), b"old:".to_vec());
    let old = registry.unregister("alpha");
    assert_eq!(old, Some(b"old:".to_vec()));
    registry.register("alpha".to_string(), b"new:".to_vec());
    registry.handle_mut("alpha").unwrap().extend_from_slice(b"ping");
    assert_eq!(registry.unregister("alpha"), Some(b"new:ping".to_vec()));
}

#[test]
fn handle_mut_changes_are_kept() {
    let mut registry: McpProcesses<Vec<u8>> = McpProcesses::new();
    registry.register("alpha".to_string(), Vec::new());
    registry.register("beta".to_string(), Vec::new());
    registry.handle_mut("alpha").unwrap().extend_from_slice(b"one\n");
    registry.handle_mut("beta").unwrap().extend_from_slice(b"other\n");
    registry.handle_mut("alpha").unwrap().extend_from_slice(b"two\n");
    assert_eq!(registry.unregister("alpha"), Some(b"one\ntwo\n".to_vec()));
    assert_eq!(registry.unregister("beta"), Some(b"other\n".to_vec()));
}

#[test]
fn handle_mut_of_unknown_name_is_not_found() {
    let mut registry: McpProcesses<u32> = McpProcesses::new();
    registry.register("alpha".to_string(), 1);
    match registry.handle_mut("ghost") {
        Err(McpError::NotFound(name)) => assert_eq!(name, "ghost"),
        other => panic!("expected NotFound, got {:?}", other),
    }
    assert!(!registry.is_running("ghost"));
    assert!(registry.is_running("alpha"));
}

#[test]
fn names_are_compared_exactly() {
    let mut registry: McpProcesses<u32> = McpProcesses::new();
    registry.register("alpha".to_string(), 1);
    assert!(!registry.is_running("Alpha"));
    assert!(!registry.is_running("alpha "));
    assert!(!registry.is_running("alph"));
    assert_eq!(registry.unregister("ALPHA"), None);
    assert!(registry.is_running("alpha"));
}

#[test]
fn error_messages_are_the_ones_shown_to_the_caller() {
    assert_eq!(
        McpError::Spawn("No such file or directory (os error 2)".to_string()).message(),
        "Failed to spawn process: No such file or directory (os error 2)"
    );
    assert_eq!(McpError::MissingStream(StreamKind::Stdin).message(), "Failed to get stdin");
    assert_eq!(McpError::MissingStream(StreamKind::Stdout).message(), "Failed to get stdout");
    assert_eq!(McpError::MissingStream(StreamKind::Stderr).message(), "Failed to get stderr");
    assert_eq!(McpError::NotFound("alpha".to_string()).message(), "MCP server alpha not found");
    assert_eq!(
        McpError::Io(IoStep::Write, "Broken pipe (os error 32)".to_string()).message(),
        "Failed to write to stdin: Broken pipe (os error 32)"
    );
    assert_eq!(
        McpError::Io(IoStep::Flush, "Broken pipe (os error 32)".to_string()).message(),
        "Failed to flush stdin: Broken pipe (os error 32)"
    );
    assert_eq!(
        McpError::Io(IoStep::Kill, "Operation not permitted (os error 1)".to_string()).message(),
        "Failed to kill process: Operation not permitted (os error 1)"
    );
    assert_eq!(
        McpError::Lock("poisoned lock: another task failed inside".to_string()).message(),
        "poisoned lock: another task failed inside"
    );
}

#[test]
fn io_outcome_reports_the_failed_step() {
    assert!(io_outcome(IoStep::Write, Ok(())).is_ok());
    assert!(io_outcome(IoStep::Flush, Ok(())).is_ok());
    match io_outcome(IoStep::Write, Err("Broken pipe".to_string())) {
        Err(McpError::Io(IoStep::Write, reason)) => assert_eq!(reason, "Broken pipe"),
        other => panic!("expected a write failure, got {:?}", other),
    }
    match io_outcome(IoStep::Flush, Err("Broken pipe".to_string())) {
        Err(McpError::Io(IoStep::Flush, reason)) => assert_eq!(reason, "Broken pipe"),
        other => panic!("expected a flush failure, got {:?}", other),
    }
}

#[test]
fn kill_outcome_is_success_unless_the_system_refuses() {
    assert!(kill_outcome(None).is_ok());
    assert!(kill_outcome(Some(Ok(()))).is_ok());
    match kill_outcome(Some(Err("Operation not permitted".to_string()))) {
        Err(McpError::Io(IoStep::Kill, reason)) => assert_eq!(reason, "Operation not permitted"),
        other => panic!("expected a kill failure, got {:?}", other),
    }
}

#[test]
fn write_to_a_server_that_is_gone_is_an_io_error() {
    // The handle stands for a pipe whose reader has gone: every write fails.
    let mut registry: McpProcesses<bool> = McpProcesses::new();
    registry.register("alpha".to_string(), false);
    let alive = *registry.handle_mut("alpha").unwrap();
    let written = if alive { Ok(()) } else { Err("Broken pipe (os error 32)".to_string()) };
    let outcome = io_outcome(IoStep::Write, written);
    assert_eq!(
        outcome.map_err(|e| e.message()),
        Err("Failed to write to stdin: Broken pipe (os error 32)".to_string())
    );
    assert!(registry.is_running("alpha"));
}
