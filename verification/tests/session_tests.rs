use q9gent::session::session_id_of_filename;
use q9gent::{AppError, SessionMetadata, SessionStore};

#[test]
fn test_session_store_create() {
    let store = SessionStore::new("./sessions".to_string());
    let metadata = store.create_session("test_agent".to_string(), 1700000000);
    assert_eq!(metadata.agent_type, "test_agent");
    assert!(!metadata.session_id.is_empty());
    assert_eq!(metadata.session_id.chars().count(), 36);
    assert!(metadata.created_at > 0);
    assert_eq!(metadata.created_at, metadata.last_used);
}

#[test]
fn test_create_session_fresh_ids_differ() {
    let store = SessionStore::new("./sessions".to_string());
    let a = store.create_session("t".to_string(), 1);
    let b = store.create_session("t".to_string(), 1);
    assert_ne!(a.session_id, b.session_id);
}

#[test]
fn test_session_path() {
    let store = SessionStore::new("/var/lib/agents".to_string());
    assert_eq!(
        store.session_path("test-123"),
        "/var/lib/agents/test-123.json"
    );
}

#[test]
fn test_touched_refreshes_last_used() {
    let metadata = SessionMetadata {
        session_id: "test-123".to_string(),
        agent_type: "test".to_string(),
        created_at: 1000,
        last_used: 1000,
    };
    let updated = metadata.touched(2000);
    assert_eq!(updated.session_id, "test-123");
    assert_eq!(updated.agent_type, "test");
    assert_eq!(updated.created_at, 1000);
    assert_eq!(updated.last_used, 2000);
    assert!(updated.last_used > metadata.last_used);
}

#[test]
fn test_session_id_of_filename() {
    assert_eq!(
        session_id_of_filename("abc-123.json"),
        Some("abc-123".to_string())
    );
    assert_eq!(session_id_of_filename(".json"), Some(String::new()));
    assert_eq!(session_id_of_filename("abc-123.txt"), None);
    assert_eq!(session_id_of_filename("json"), None);
    assert_eq!(session_id_of_filename(""), None);
    assert_eq!(session_id_of_filename("x.JSON"), None);
}

#[test]
fn test_error_status_codes() {
    assert_eq!(AppError::ProcessSpawnFailed("x".to_string()).status_code(), 500);
    assert_eq!(
        AppError::ProcessExecutionError("x".to_string()).status_code(),
        500
    );
    assert_eq!(AppError::SessionNotFound("x".to_string()).status_code(), 404);
    assert_eq!(AppError::InvalidRequest("x".to_string()).status_code(), 400);
    assert_eq!(AppError::IoError("x".to_string()).status_code(), 500);
    assert_eq!(AppError::SerializationError("x".to_string()).status_code(), 500);
    assert_eq!(AppError::Internal("x".to_string()).status_code(), 500);
}

#[test]
fn test_error_messages() {
    assert_eq!(
        AppError::SessionNotFound("abc".to_string()).message(),
        "Session not found: abc"
    );
    assert_eq!(
        AppError::ProcessSpawnFailed("nope".to_string()).message(),
        "Process spawn failed: nope"
    );
    assert_eq!(
        AppError::ProcessExecutionError("kill".to_string()).message(),
        "Process execution error: kill"
    );
    assert_eq!(
        AppError::InvalidRequest("bad".to_string()).message(),
        "Invalid request: bad"
    );
}
