use q9gent::orchestrator::{
    build_agent_request, cleanup_session, outward_sequence, prepare_resume, run_session_stream,
    stream_finish, stream_start, stream_step, MessagePayload, SpawnPayload, StreamPhase,
};
use q9gent::{AppError, OutwardEvent, ProcessRegistry, RunnerEvent, SessionMetadata};

fn line(s: &str) -> RunnerEvent {
    RunnerEvent::Line(s.to_string())
}

#[test]
fn test_fresh_session_scenario() {
    // A fresh request with a created session: the outward sequence starts
    // with session_created, mirrors stdout lines verbatim, ends completed.
    let mut registry: ProcessRegistry<u64> = ProcessRegistry::new();
    let sid = "11111111-2222-3333-4444-555555555555".to_string();
    assert!(!sid.is_empty());
    let events = vec![line("{\"a\":1}"), line("{\"b\":2}")];
    let out = run_session_stream(&mut registry, &sid, 7u64, &events);
    assert_eq!(
        out,
        vec![
            OutwardEvent::SessionCreated(sid.clone()),
            OutwardEvent::Output("{\"a\":1}".to_string()),
            OutwardEvent::Output("{\"b\":2}".to_string()),
            OutwardEvent::Completed,
        ]
    );
    // Cleanup: the registry no longer holds the session's key.
    assert!(!registry.contains_key(&sid));
}

#[test]
fn test_error_terminates_stream() {
    // An error event stops the forwarding: nothing after it but completed.
    let events = vec![
        line("one"),
        RunnerEvent::Failure("boom".to_string()),
        line("after"),
    ];
    let out = outward_sequence(&None, &events);
    assert_eq!(
        out,
        vec![
            OutwardEvent::Output("one".to_string()),
            OutwardEvent::Error("boom".to_string()),
            OutwardEvent::Completed,
        ]
    );
}

#[test]
fn test_zero_lines_still_completes() {
    let events: Vec<RunnerEvent> = vec![];
    let out = outward_sequence(&None, &events);
    assert_eq!(out, vec![OutwardEvent::Completed]);
}

#[test]
fn test_stream_steps_compose() {
    let (out0, phase0) = stream_start(&Some("sid-1".to_string()));
    assert_eq!(
        out0,
        vec![OutwardEvent::SessionCreated("sid-1".to_string())]
    );
    assert_eq!(phase0, StreamPhase::Streaming);
    let (out1, phase1) = stream_step(phase0, &line("x"));
    assert_eq!(out1, vec![OutwardEvent::Output("x".to_string())]);
    let (out2, phase2) = stream_step(phase1, &RunnerEvent::Failure("e".to_string()));
    assert_eq!(out2, vec![OutwardEvent::Error("e".to_string())]);
    assert_eq!(phase2, StreamPhase::Stopped);
    // After the stream stopped, further events are dropped.
    let (out3, phase3) = stream_step(phase2, &line("y"));
    assert!(out3.is_empty());
    assert_eq!(phase3, StreamPhase::Stopped);
    let (out4, phase4) = stream_finish(phase3);
    assert_eq!(out4, vec![OutwardEvent::Completed]);
    assert_eq!(phase4, StreamPhase::Finished);
    let (out5, _) = stream_finish(phase4);
    assert!(out5.is_empty());
}

#[test]
fn test_registry_terminate_lifecycle() {
    // Termination against an unregistered session fails with not-found and
    // has no side effects; against a registered one it removes the entry,
    // and a second termination fails again.
    let mut registry: ProcessRegistry<u64> = ProcessRegistry::new();
    let key = "sess".to_string();
    let absent = registry.terminate_by_key(&key);
    assert!(matches!(absent, Err(AppError::SessionNotFound(ref s)) if s == "sess"));

    assert!(registry.insert(key.clone(), 42u64).is_none());
    assert!(registry.contains_key(&key));
    let taken = registry.terminate_by_key(&key);
    assert!(matches!(taken, Ok(42u64)));
    assert!(!registry.contains_key(&key));

    let again = registry.terminate_by_key(&key);
    assert!(matches!(again, Err(AppError::SessionNotFound(_))));
}

#[test]
fn test_registry_insert_remove_sequences() {
    let mut registry: ProcessRegistry<u64> = ProcessRegistry::new();
    let a = "a".to_string();
    let b = "b".to_string();
    assert!(registry.insert(a.clone(), 1).is_none());
    assert!(registry.insert(b.clone(), 2).is_none());
    // Overwriting a key hands back the displaced handle.
    assert_eq!(registry.insert(a.clone(), 3), Some(1));
    assert_eq!(registry.remove(&a), Some(3));
    assert_eq!(registry.remove(&a), None);
    assert_eq!(registry.remove(&b), Some(2));
    assert!(!registry.contains_key(&a));
    assert!(!registry.contains_key(&b));
}

#[test]
fn test_cleanup_session_paths() {
    let mut registry: ProcessRegistry<u64> = ProcessRegistry::new();
    let sid = "s1".to_string();
    registry.insert(sid.clone(), 9);
    let removed = cleanup_session(&mut registry, &Some(sid.clone()));
    assert_eq!(removed, Some(9));
    assert!(!registry.contains_key(&sid));
    // Absent key and no session: both leave the registry unchanged.
    assert_eq!(cleanup_session(&mut registry, &Some(sid.clone())), None);
    assert_eq!(cleanup_session(&mut registry, &None), None);
}

#[test]
fn test_resume_unknown_session_fails_first() {
    // A resume against an unknown session identifier fails immediately
    // with SessionNotFound; no request is produced, so nothing spawns.
    let sid = "nonexistent".to_string();
    let payload = MessagePayload {
        prompt: "hi".to_string(),
        flags: vec![],
        tools_allowed: vec![],
        system_append: None,
    };
    let r = prepare_resume(None, &sid, 1234, payload);
    assert!(matches!(r, Err(AppError::SessionNotFound(ref s)) if s == "nonexistent"));
}

#[test]
fn test_resume_known_session_touches_and_builds() {
    let sid = "sess-9".to_string();
    let meta = SessionMetadata {
        session_id: sid.clone(),
        agent_type: "test".to_string(),
        created_at: 1000,
        last_used: 1000,
    };
    let payload = MessagePayload {
        prompt: "next".to_string(),
        flags: vec!["--z".to_string()],
        tools_allowed: vec!["t".to_string()],
        system_append: Some("extra".to_string()),
    };
    let (touched, req) = prepare_resume(Some(meta), &sid, 2000, payload).unwrap();
    assert_eq!(touched.session_id, sid);
    assert_eq!(touched.agent_type, "test");
    assert_eq!(touched.created_at, 1000);
    assert_eq!(touched.last_used, 2000);
    assert_eq!(req.agent_type, "resumed");
    assert_eq!(req.prompt, "next");
    assert_eq!(req.flags, vec!["--z".to_string()]);
    assert_eq!(req.tools_allowed, vec!["t".to_string()]);
    assert_eq!(req.system_append, Some("extra".to_string()));
    assert_eq!(req.resume_id, Some(sid));
}

#[test]
fn test_build_agent_request_resume_substitution() {
    // With no caller-supplied resume identifier, the created session's
    // identifier becomes the resume identifier.
    let payload = SpawnPayload {
        agent_type: "t".to_string(),
        prompt: "p".to_string(),
        flags: vec![],
        tools_allowed: vec![],
        system_append: None,
        resume_id: None,
        create_session: true,
    };
    let req = build_agent_request(payload, Some("fresh-id".to_string()));
    assert_eq!(req.resume_id, Some("fresh-id".to_string()));

    let payload2 = SpawnPayload {
        agent_type: "t".to_string(),
        prompt: "p".to_string(),
        flags: vec![],
        tools_allowed: vec![],
        system_append: None,
        resume_id: Some("explicit".to_string()),
        create_session: true,
    };
    let req2 = build_agent_request(payload2, Some("fresh-id".to_string()));
    assert_eq!(req2.resume_id, Some("explicit".to_string()));
}
