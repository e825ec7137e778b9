use ccmate_core::chat::{
    select_project_sessions, session_file_name, validate_session_id, ChatMessage, ChatSession, MessageRole,
    PermissionMode,
};
use std::time::SystemTime;

fn now() -> u64 {
    SystemTime::now()
        .duration_since(SystemTime::UNIX_EPOCH)
        .unwrap()
        .as_secs()
}

#[test]
fn test_chat_session_new() {
    let project_path = "/test/project".to_string();
    let title = "Test Session".to_string();

    let session = ChatSession::new(project_path.clone(), title.clone());

    assert_eq!(session.project_path, project_path);
    assert_eq!(session.title, title);
    assert_eq!(session.message_count, 0);

    assert_eq!(session.id.len(), 36);
    assert!(session.id.contains('-'));

    let now = now();
    assert!(session.created_at <= now);
    assert!(session.updated_at <= now);
    assert!(now - session.created_at < 60);

    assert_eq!(session.created_at, session.updated_at);
}

#[test]
fn test_chat_session_new_creates_unique_ids() {
    let session1 = ChatSession::new("/test/project1".to_string(), "Chat 1".to_string());
    let session2 = ChatSession::new("/test/project2".to_string(), "Chat 2".to_string());

    assert_ne!(session1.id, session2.id);
}

#[test]
fn test_chat_message_new() {
    let session_id = "test-session-123".to_string();
    let role = MessageRole::User;
    let content = "Hello, agent!".to_string();

    let message = ChatMessage::new(session_id.clone(), role.clone(), content.clone());

    assert_eq!(message.session_id, session_id);
    assert_eq!(message.role, role);
    assert_eq!(message.content, content);
    assert_eq!(message.id.len(), 36);
    assert!(message.id.contains('-'));
    assert!(message.tool_use.is_none());
    assert!(message.metadata.is_none());

    let now = now();
    assert!(message.timestamp <= now);
    assert!(now - message.timestamp < 60);
}

#[test]
fn test_chat_message_new_creates_unique_ids() {
    let session_id = "test-session".to_string();
    let msg1 = ChatMessage::new(session_id.clone(), MessageRole::User, "Message 1".to_string());
    let msg2 = ChatMessage::new(session_id.clone(), MessageRole::User, "Message 2".to_string());

    assert_ne!(msg1.id, msg2.id);
}

#[test]
fn test_chat_message_different_roles() {
    let session_id = "test-session".to_string();

    let user_msg = ChatMessage::new(session_id.clone(), MessageRole::User, "User message".to_string());
    let assistant_msg = ChatMessage::new(
        session_id.clone(),
        MessageRole::Assistant,
        "Assistant message".to_string(),
    );
    let system_msg = ChatMessage::new(session_id.clone(), MessageRole::System, "System message".to_string());
    let tool_msg = ChatMessage::new(session_id.clone(), MessageRole::Tool, "Tool message".to_string());

    assert_eq!(user_msg.role, MessageRole::User);
    assert_eq!(assistant_msg.role, MessageRole::Assistant);
    assert_eq!(system_msg.role, MessageRole::System);
    assert_eq!(tool_msg.role, MessageRole::Tool);
}

#[test]
fn test_permission_mode_variants() {
    let default_mode = PermissionMode::Default;
    let accept_edits = PermissionMode::AcceptEdits;
    let bypass = PermissionMode::BypassPermissions;
    let plan = PermissionMode::Plan;

    assert_ne!(default_mode, accept_edits);
    assert_ne!(accept_edits, bypass);
    assert_ne!(bypass, plan);
}

#[test]
fn test_chat_session_with_long_title() {
    let long_title = "A".repeat(1000);
    let session = ChatSession::new("/test/project".to_string(), long_title.clone());
    assert_eq!(session.title, long_title);
}

#[test]
fn session_ids_must_be_uuids_without_traversal() {
    assert_eq!(validate_session_id("00000000-0000-0000-0000-000000000000"), Ok(()));
    assert_eq!(
        validate_session_id("../etc/passwd"),
        Err("Invalid session ID: contains path traversal characters".to_string())
    );
    assert_eq!(
        validate_session_id("a\\b"),
        Err("Invalid session ID: contains path traversal characters".to_string())
    );
    assert_eq!(
        validate_session_id("not-a-uuid"),
        Err("Invalid session ID: must be a valid UUID".to_string())
    );
    assert_eq!(validate_session_id("550E8400E29B41D4A716446655440000"), Ok(()));
    assert_eq!(validate_session_id("{550e8400-e29b-41d4-a716-446655440000}"), Ok(()));
    assert_eq!(validate_session_id("URN:uuid:550e8400-e29b-41d4-a716-446655440000"), Ok(()));
    assert!(validate_session_id("550e8400-e29b-41d4-a716-44665544000g").is_err());
    assert!(validate_session_id("550e8400e29b-41d4-a716-4466554400000").is_err());
    assert_eq!(session_file_name("abc"), "abc.json");
}

fn session_at(project: &str, title: &str, updated_at: u64) -> ChatSession {
    let mut s = ChatSession::new(project.to_string(), title.to_string());
    s.updated_at = updated_at;
    s
}

#[test]
fn project_sessions_filtered_and_newest_first() {
    let sessions = vec![
        session_at("/test/project1", "Session 1", 100),
        session_at("/test/project2", "Session 2", 500),
        session_at("/test/project1", "Session 3", 200),
        session_at("/test/project1", "Session 4", 200),
        session_at("/test/project1", "Session 5", 50),
    ];
    let picked = select_project_sessions(sessions, "/test/project1");
    let titles: Vec<&str> = picked.iter().map(|s| s.title.as_str()).collect();
    assert_eq!(titles, vec!["Session 3", "Session 4", "Session 1", "Session 5"]);
    assert!(select_project_sessions(Vec::new(), "/x").is_empty());
    assert!(select_project_sessions(vec![session_at("/a", "t", 1)], "/nonexistent/project/path").is_empty());
}

#[test]
fn os_names() {
    assert_eq!(ccmate_core::records::get_os_name("macos"), "macOS");
    assert_eq!(ccmate_core::records::get_os_name("windows"), "Windows");
    assert_eq!(ccmate_core::records::get_os_name("linux"), "Linux");
    assert_eq!(ccmate_core::records::get_os_name("freebsd"), "Unknown");
}
