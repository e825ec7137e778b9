use ccmate_core::paths::{
    decode_project_path, encode_project_path, extract_session_id, get_project_agents_dir,
    get_project_claude_dir, get_project_commands_dir, get_project_mcp_path,
    get_project_sessions_dir, get_project_settings_path, is_session_file_name, join_path, project_sessions_dir_in,
    sanitize_project_path_for_dir,
};

#[test]
fn test_sanitize_project_path_for_dir_basic() {
    let result = sanitize_project_path_for_dir("/Users/huutri/code/ccmate");
    assert_eq!(result, "-Users-huutri-code-ccmate");
}

#[test]
fn test_sanitize_project_path_for_dir_with_trailing_slash() {
    let result = sanitize_project_path_for_dir("/Users/huutri/code/ccmate/");
    assert_eq!(result, "-Users-huutri-code-ccmate-");
}

#[test]
fn test_sanitize_project_path_for_dir_single_component() {
    let result = sanitize_project_path_for_dir("ccmate");
    assert_eq!(result, "ccmate");
}

#[test]
fn test_sanitize_project_path_for_dir_with_dots() {
    let result = sanitize_project_path_for_dir("/Users/user.name/code/my.project");
    assert_eq!(result, "-Users-user.name-code-my.project");
}

#[test]
fn test_sanitize_project_path_for_dir_empty() {
    let result = sanitize_project_path_for_dir("");
    assert_eq!(result, "");
}

#[test]
fn test_encode_project_path() {
    assert_eq!(
        encode_project_path("/Users/huutri/code/ccmate"),
        "-Users-huutri-code-ccmate"
    );
}

#[test]
fn test_decode_project_path() {
    assert_eq!(
        decode_project_path("-Users-huutri-code-ccmate"),
        "/Users/huutri/code/ccmate"
    );
}

#[test]
fn decode_keeps_a_name_without_leading_dash() {
    assert_eq!(decode_project_path("plain-name"), "plain-name");
    assert_eq!(decode_project_path(""), "");
    assert_eq!(decode_project_path("-"), "/");
}

#[test]
fn encode_handles_multibyte_text() {
    assert_eq!(encode_project_path("/home/zoë/プロジェクト"), "-home-zoë-プロジェクト");
}

#[test]
fn session_id_is_the_file_stem() {
    assert_eq!(
        extract_session_id("/home/u/.acme/projects/-p/abc-123.jsonl"),
        Some("abc-123".to_string())
    );
    assert_eq!(extract_session_id("archive.tar.gz"), Some("archive.tar".to_string()));
    assert_eq!(extract_session_id("/a/.hidden"), Some(".hidden".to_string()));
    assert_eq!(extract_session_id("/a/noext"), Some("noext".to_string()));
    assert_eq!(extract_session_id("/a/dir/"), Some("dir".to_string()));
    assert_eq!(extract_session_id("/a/b.c/x"), Some("x".to_string()));
}

#[test]
fn session_id_absent_without_a_file_name() {
    assert_eq!(extract_session_id(""), None);
    assert_eq!(extract_session_id("/"), None);
    assert_eq!(extract_session_id("/a/.."), None);
    assert_eq!(extract_session_id("."), None);
}

#[test]
fn project_config_paths() {
    assert_eq!(get_project_claude_dir("/p/q", ".acme"), "/p/q/.acme");
    assert_eq!(get_project_claude_dir("/p/q/", ".acme"), "/p/q/.acme");
    assert_eq!(get_project_settings_path("/p", ".acme"), "/p/.acme/settings.json");
    assert_eq!(get_project_agents_dir("/p", ".acme"), "/p/.acme/agents");
    assert_eq!(get_project_commands_dir("/p", ".acme"), "/p/.acme/commands");
    assert_eq!(get_project_mcp_path("/p", ".acme"), "/p/.acme/.mcp.json");
    assert_eq!(join_path("", "x"), "x");
}

#[test]
fn sessions_dir_under_home() {
    assert_eq!(
        project_sessions_dir_in("/home/u", ".acme", "/Users/huutri/code/ccmate"),
        "/home/u/.acme/projects/-Users-huutri-code-ccmate"
    );
    match get_project_sessions_dir("/x/y", ".acme") {
        Ok(d) => assert!(d.ends_with("/.acme/projects/-x-y")),
        Err(e) => assert_eq!(e, "Could not find home directory"),
    }
}

#[test]
fn session_file_names() {
    assert!(is_session_file_name("abc.jsonl"));
    assert!(!is_session_file_name("agent-abc.jsonl"));
    assert!(!is_session_file_name(".jsonl"));
    assert!(!is_session_file_name("abc.json"));
    assert!(is_session_file_name("agent.jsonl"));
}

#[test]
fn trailing_dot_components_name_nothing() {
    assert_eq!(extract_session_id("a/."), Some("a".to_string()));
    assert_eq!(extract_session_id("foo.txt/."), Some("foo".to_string()));
    assert_eq!(extract_session_id("/d/s.jsonl/./"), Some("s".to_string()));
    assert_eq!(extract_session_id("./"), None);
    assert_eq!(extract_session_id("/."), None);
}
