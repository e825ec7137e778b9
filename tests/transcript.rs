use ccmate_core::json::Json;
use ccmate_core::models::{get_alias_map, ModelConfig, ModelInfo};
use ccmate_core::transcript::{extract_session_metadata, MessageContent, MessageType, SessionMessage};

fn aliases() -> ccmate_core::models::ModelAliases {
    get_alias_map(&ModelConfig {
        version: "1.0".to_string(),
        default_model: "acme-sonnet-4-5-20250929".to_string(),
        models: vec![ModelInfo {
            id: "acme-sonnet-4-5-20250929".to_string(),
            display_name: "Sonnet".to_string(),
            family: "sonnet".to_string(),
            release_date: "2025-09-29".to_string(),
            aliases: vec!["sonnet".to_string()],
        }],
    })
}

fn text(s: &str) -> Json {
    Json::Str(s.to_string())
}

fn block(t: Option<&str>) -> Json {
    match t {
        Some(t) => Json::Object(vec![("type".to_string(), text("text")), ("text".to_string(), text(t))]),
        None => Json::Object(vec![("type".to_string(), text("image"))]),
    }
}

fn blocks(ts: &[Option<&str>]) -> Json {
    Json::Array(ts.iter().map(|t| block(*t)).collect())
}

fn record(kind: MessageType, ts: &str, content: Option<Json>) -> SessionMessage {
    SessionMessage {
        parent_uuid: None,
        uuid: None,
        session_id: "s-1".to_string(),
        timestamp: ts.to_string(),
        msg_type: kind,
        message: content.map(|c| MessageContent {
            role: "user".to_string(),
            content: Some(c),
        }),
        cwd: Some("/work".to_string()),
        version: None,
        is_sidechain: None,
        id: None,
        model: None,
        usage: None,
    }
}

#[test]
fn test_parse_empty_lines() {
    let messages = vec![];
    let path = "/tmp/test.jsonl";
    let result = extract_session_metadata(&messages, path, &aliases());
    assert!(result.is_err());
}

#[test]
fn only_unknown_records_is_an_error() {
    let messages = vec![record(MessageType::Other, "t0", None)];
    let result = extract_session_metadata(&messages, "/f", &aliases());
    assert_eq!(result.err(), Some("Session has no valid messages".to_string()));
}

#[test]
fn metadata_of_a_session() {
    let mut assistant = record(MessageType::Assistant, "t3", None);
    assistant.model = Some("SONNET".to_string());
    let messages = vec![
        record(MessageType::Other, "t0", None),
        record(MessageType::User, "t1", Some(blocks(&[Some("first"), None, Some("second")]))),
        record(MessageType::User, "t2", Some(text("later"))),
        assistant,
        record(MessageType::Other, "t9", None),
    ];
    let s = extract_session_metadata(&messages, "/f.jsonl", &aliases()).unwrap();
    assert_eq!(s.id, "s-1");
    assert_eq!(s.project_path, "/work");
    assert_eq!(s.title, "first\nsecond");
    assert_eq!(s.created_at, "t1");
    assert_eq!(s.updated_at, "t3");
    assert_eq!(s.message_count, 3);
    assert_eq!(s.model, Some("acme-sonnet-4-5-20250929".to_string()));
    assert_eq!(s.file_path, "/f.jsonl");
}

#[test]
fn long_titles_are_shortened() {
    let long = "x".repeat(150);
    let messages = vec![record(MessageType::User, "t1", Some(text(&long)))];
    let s = extract_session_metadata(&messages, "/f", &aliases()).unwrap();
    assert_eq!(s.title, format!("{}...", "x".repeat(97)));
    assert_eq!(s.model, None);
}

#[test]
fn untitled_without_user_text() {
    let mut first = record(MessageType::Summary, "t1", None);
    first.cwd = None;
    let messages = vec![first, record(MessageType::User, "t2", Some(blocks(&[None])))];
    let s = extract_session_metadata(&messages, "/f", &aliases()).unwrap();
    assert_eq!(s.title, "Untitled Session");
    assert_eq!(s.project_path, "Unknown");
}

#[test]
fn text_content_forms() {
    assert_eq!(record(MessageType::User, "t", Some(text("plain"))).get_text_content(), Some("plain".to_string()));
    assert_eq!(record(MessageType::User, "t", Some(blocks(&[Some("a"), Some("b")]))).get_text_content(), Some("a\nb".to_string()));
    assert_eq!(record(MessageType::User, "t", Some(Json::Array(vec![]))).get_text_content(), None);
    assert_eq!(record(MessageType::User, "t", Some(Json::Number("42".to_string()))).get_text_content(), None);
    assert_eq!(record(MessageType::User, "t", None).get_text_content(), None);
}
