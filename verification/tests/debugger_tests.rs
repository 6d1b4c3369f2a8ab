//! The debugging session store.

use assistant_core::debugger::{
    DebugStatus, DebuggerEngine, StackFrame, Thread, ThreadState,
};
use assistant_core::errors::AiError;

fn engine_with_session() -> (DebuggerEngine, String) {
    let mut eng = DebuggerEngine::new();
    let id = eng
        .start_debug_session(
            "run".to_string(),
            "/bin/app".to_string(),
            "/work".to_string(),
            vec!["--fast".to_string()],
        )
        .unwrap();
    (eng, id)
}

#[test]
fn sessions_start_fresh_and_are_retrievable() {
    let (eng, id) = engine_with_session();
    let s = eng.get_session(&id).expect("session");
    assert_eq!(s.name, "run");
    assert_eq!(s.program_path, "/bin/app");
    assert_eq!(s.working_directory, "/work");
    assert_eq!(s.arguments, vec!["--fast".to_string()]);
    assert_eq!(s.status, DebugStatus::NotStarted);
    assert!(s.current_frame.is_none());
    assert!(s.call_stack.is_empty());
    assert_eq!(eng.get_active_sessions().len(), 1);
    assert!(eng.get_session("unknown").is_none());
}

#[test]
fn status_transitions_follow_the_commands() {
    let (mut eng, id) = engine_with_session();
    eng.continue_execution(&id).unwrap();
    assert_eq!(eng.get_session(&id).unwrap().status, DebugStatus::Running);
    eng.pause_execution(&id).unwrap();
    assert_eq!(eng.get_session(&id).unwrap().status, DebugStatus::Paused);
    eng.stop_debug_session(&id).unwrap();
    assert_eq!(eng.get_session(&id).unwrap().status, DebugStatus::Stopped);
    // Unknown ids are quietly ignored.
    eng.continue_execution("nope").unwrap();
    assert_eq!(eng.get_session(&id).unwrap().status, DebugStatus::Stopped);
}

#[test]
fn breakpoints_are_set_listed_toggled_and_removed() {
    let mut eng = DebuggerEngine::new();
    let b1 = eng.set_breakpoint("src/a.rs".to_string(), 10, Some(4), None).unwrap();
    let b2 = eng.set_breakpoint("src/a.rs".to_string(), 20, None, Some("x > 0".to_string())).unwrap();
    let _b3 = eng.set_breakpoint("src/b.rs".to_string(), 5, None, None).unwrap();
    let in_a = eng.get_breakpoints("src/a.rs");
    assert_eq!(in_a.len(), 2);
    assert_eq!(in_a[0].line, 10);
    assert_eq!(in_a[1].line, 20);
    assert!(in_a.iter().all(|b| b.is_enabled && !b.is_verified && b.hit_count == 0));

    eng.toggle_breakpoint(&b1).unwrap();
    assert!(!eng.get_breakpoints("src/a.rs")[0].is_enabled);
    eng.toggle_breakpoint(&b1).unwrap();
    assert!(eng.get_breakpoints("src/a.rs")[0].is_enabled);

    eng.remove_breakpoint(&b2).unwrap();
    assert_eq!(eng.get_breakpoints("src/a.rs").len(), 1);
    assert_eq!(eng.get_breakpoints("src/b.rs").len(), 1);
    assert_eq!(eng.get_breakpoints("src/none.rs").len(), 0);
}

#[test]
fn step_over_advances_the_current_frame_line() {
    let (mut eng, id) = engine_with_session();
    eng.active_sessions[0].current_frame = Some(StackFrame {
        id: 1,
        name: "main".to_string(),
        file_path: "src/a.rs".to_string(),
        line: 41,
        column: 1,
        variables: vec![],
    });
    eng.step_over(&id).unwrap();
    assert_eq!(eng.get_session(&id).unwrap().current_frame.as_ref().unwrap().line, 42);
    // Stepping into or out records nothing here.
    eng.step_into(&id).unwrap();
    eng.step_out(&id).unwrap();
    assert_eq!(eng.get_session(&id).unwrap().current_frame.as_ref().unwrap().line, 42);
}

#[test]
fn thread_selection_marks_exactly_one_active() {
    let (mut eng, id) = engine_with_session();
    eng.active_sessions[0].threads = vec![
        Thread { id: 1, name: "main".to_string(), is_active: true, state: ThreadState::Running },
        Thread { id: 2, name: "worker".to_string(), is_active: false, state: ThreadState::Stopped },
    ];
    eng.set_current_thread(&id, 2).unwrap();
    let ts = eng.get_threads(&id).unwrap();
    assert!(!ts[0].is_active);
    assert!(ts[1].is_active);
    assert!(matches!(eng.get_threads("nope").unwrap_err(), AiError::NotFound(_)));
}

#[test]
fn variables_come_from_the_requested_frame() {
    let (mut eng, id) = engine_with_session();
    eng.active_sessions[0].call_stack = vec![StackFrame {
        id: 7,
        name: "f".to_string(),
        file_path: "src/a.rs".to_string(),
        line: 1,
        column: 1,
        variables: vec![assistant_core::debugger::Variable {
            name: "x".to_string(),
            value: "3".to_string(),
            type_label: "u32".to_string(),
            is_expanded: false,
            children: vec![],
        }],
    }];
    let vs = eng.get_variables(&id, Some(7)).unwrap();
    assert_eq!(vs.len(), 1);
    assert_eq!(vs[0].name, "x");
    // An unknown frame yields no variables; an unknown session fails.
    assert_eq!(eng.get_variables(&id, Some(9)).unwrap().len(), 0);
    assert!(matches!(eng.get_variables("nope", None).unwrap_err(), AiError::NotFound(_)));
    // Without a frame id the session-level variables come back.
    assert_eq!(eng.get_variables(&id, None).unwrap().len(), 0);
}

#[test]
fn evaluate_expression_echoes_a_mock_value() {
    let (eng, id) = engine_with_session();
    let v = eng.evaluate_expression(&id, "a + b").unwrap();
    assert_eq!(v.name, "a + b");
    assert_eq!(v.value, "mock_value");
    assert_eq!(v.type_label, "unknown");
    assert!(!v.is_expanded);
    assert!(v.children.is_empty());
}

#[test]
fn call_stack_retrieval_checks_the_session() {
    let (eng, id) = engine_with_session();
    assert_eq!(eng.get_call_stack(&id).unwrap().len(), 0);
    assert!(matches!(eng.get_call_stack("nope").unwrap_err(), AiError::NotFound(_)));
}

#[test]
fn two_sessions_get_distinct_ids() {
    let (mut eng, first) = engine_with_session();
    let second = eng
        .start_debug_session(
            "other".to_string(),
            "/bin/b".to_string(),
            "/w".to_string(),
            vec![],
        )
        .unwrap();
    assert_ne!(first, second);
    assert_eq!(eng.get_active_sessions().len(), 2);
}
