use ccmate_core::json::Json;
use ccmate_core::protocol::{
    flush, normalize, parse_claude_message, parse_stream_event, ParseState, StreamEvent,
};
use ccmate_core::pump::{cancel_session, register_process, Emission, StreamPump};
use ccmate_core::registry::ProcessRegistry;
use ccmate_core::session::SessionError;

const START_M1: &str = r#"{"type":"stream_event","event":{"type":"message_start","message":{"id":"m1"}}}"#;
const DELTA_HI: &str = r#"{"type":"stream_event","event":{"type":"content_block_delta","delta":{"text":"Hi"}}}"#;
const STOP: &str = r#"{"type":"stream_event","event":{"type":"message_stop"}}"#;

fn start(id: &str) -> StreamEvent {
    StreamEvent::MessageStart { message_id: id.to_string() }
}

fn delta(id: &str, d: &str) -> StreamEvent {
    StreamEvent::ContentDelta { message_id: id.to_string(), delta: d.to_string() }
}

fn complete(id: &str, c: &str) -> StreamEvent {
    StreamEvent::MessageComplete { message_id: id.to_string(), content: c.to_string() }
}

fn emission(key: &str, event: StreamEvent) -> Emission {
    Emission { key: key.to_string(), event }
}

fn run_lines(lines: &[&str]) -> (Vec<StreamEvent>, ParseState) {
    let mut state = ParseState::new();
    let mut out = Vec::new();
    for l in lines {
        if let Some(e) = normalize(l, &mut state) {
            out.push(e);
        }
    }
    (out, state)
}

#[test]
fn wrapped_schema_scenario() {
    let (events, _) = run_lines(&[START_M1, DELTA_HI, STOP]);
    assert_eq!(events, vec![start("m1"), delta("m1", "Hi"), complete("m1", "Hi")]);
}

#[test]
fn wrapped_completion_concatenates_deltas() {
    let d = |t: &str| {
        format!(
            r#"{{"type":"stream_event","event":{{"type":"content_block_delta","delta":{{"text":"{}"}}}}}}"#,
            t
        )
    };
    let (a, b, c) = (d("Hel"), d("lo, "), d("world"));
    let (events, _) = run_lines(&[START_M1, &a, &b, &c, STOP]);
    assert_eq!(events.len(), 5);
    assert_eq!(events[4], complete("m1", "Hello, world"));
    let joined: String = events
        .iter()
        .filter_map(|e| match e {
            StreamEvent::ContentDelta { delta, .. } => Some(delta.clone()),
            _ => None,
        })
        .collect();
    assert_eq!(joined, "Hello, world");
}

#[test]
fn wrapped_message_without_deltas_completes_empty() {
    let (events, _) = run_lines(&[START_M1, STOP]);
    assert_eq!(events, vec![start("m1"), complete("m1", "")]);
}

#[test]
fn new_start_resets_accumulated_text() {
    let start2 = r#"{"type":"stream_event","event":{"type":"message_start","message":{"id":"m2"}}}"#;
    let (events, state) = run_lines(&[START_M1, DELTA_HI, start2, STOP]);
    assert_eq!(events[3], complete("m2", ""));
    assert_eq!(state.current_message_id, "m2");
}

#[test]
fn malformed_lines_yield_nothing_and_keep_state() {
    let mut state = ParseState::new();
    normalize(START_M1, &mut state);
    normalize(DELTA_HI, &mut state);
    for bad in [
        "not json at all",
        "{",
        r#"{"no_type":1}"#,
        r#"{"type":7}"#,
        r#"{"type":"user","message":{}}"#,
        r#"{"type":"stream_event"}"#,
        r#"{"type":"stream_event","event":{"type":"message_start","message":{}}}"#,
        r#"{"type":"stream_event","event":{"type":"content_block_delta","delta":{"text":3}}}"#,
        r#"{"type":"stream_event","event":{"type":"ping"}}"#,
        r#"{"type":"assistant","message":{"content":[{"text":"x"}]}}"#,
        r#"[1,2,3]"#,
    ] {
        assert_eq!(normalize(bad, &mut state), None, "line {}", bad);
        assert_eq!(state.current_message_id, "m1");
        assert_eq!(state.accumulated_content, "Hi");
    }
}

#[test]
fn garbage_line_between_valid_lines() {
    let (events, _) = run_lines(&[START_M1, "garbage <<<", DELTA_HI, STOP]);
    assert_eq!(events, vec![start("m1"), delta("m1", "Hi"), complete("m1", "Hi")]);
}

#[test]
fn verbose_schema_events() {
    let (events, state) = run_lines(&[
        r#"{"type":"system","session_id":"real-1"}"#,
        r#"{"type":"assistant","message":{"id":"m2","content":[{"type":"tool_use"},{"text":"Hello"},{"text":"later"}]}}"#,
        r#"{"type":"result"}"#,
    ]);
    assert_eq!(events, vec![delta("m2", "Hello"), complete("m2", "Hello")]);
    assert_eq!(state.current_message_id, "");
    assert_eq!(state.accumulated_content, "");
}

#[test]
fn verbose_assistant_replaces_accumulated_text() {
    let (events, _) = run_lines(&[
        r#"{"type":"assistant","message":{"id":"m2","content":[{"text":"Hel"}]}}"#,
        r#"{"type":"assistant","message":{"id":"m3","content":[{"text":"Hello"}]}}"#,
        r#"{"type":"result"}"#,
    ]);
    assert_eq!(
        events,
        vec![delta("m2", "Hel"), delta("m3", "Hello"), complete("m2", "Hello")]
    );
}

#[test]
fn result_without_message_yields_nothing() {
    let (events, _) = run_lines(&[r#"{"type":"result"}"#]);
    assert!(events.is_empty());
}

#[test]
fn error_lines() {
    let (events, _) = run_lines(&[r#"{"type":"error","error":"rate limited"}"#, r#"{"type":"error"}"#]);
    assert_eq!(
        events,
        vec![
            StreamEvent::Error { error: "rate limited".to_string() },
            StreamEvent::Error { error: "Unknown error".to_string() },
        ]
    );
}

fn text(s: &str) -> Json {
    Json::Str(s.to_string())
}

fn obj(members: Vec<(&str, Json)>) -> Json {
    Json::Object(members.into_iter().map(|(k, v)| (k.to_string(), v)).collect())
}

#[test]
fn wrapped_only_reader_skips_verbose_lines() {
    let mut state = ParseState::new();
    let a = obj(vec![
        ("type", text("assistant")),
        ("message", obj(vec![("id", text("m2")), ("content", Json::Array(vec![obj(vec![("text", text("Hello"))])]))])),
    ]);
    assert_eq!(parse_claude_message(&a, &mut state), None);
    assert_eq!(state.current_message_id, "");
    let s = obj(vec![
        ("type", text("stream_event")),
        ("event", obj(vec![("type", text("message_start")), ("message", obj(vec![("id", text("m1"))]))])),
    ]);
    assert_eq!(parse_claude_message(&s, &mut state), Some(start("m1")));
    let mut both = ParseState::new();
    assert_eq!(parse_stream_event(&a, &mut both), Some(delta("m2", "Hello")));
}

#[test]
fn member_lookup() {
    let j = obj(vec![("a", Json::Array(vec![Json::Null, Json::Bool(true), Json::Number("1.5".to_string())])), ("b", text("s"))]);
    assert_eq!(j.get_str("b"), Some(&"s".to_string()));
    assert_eq!(j.get_str("a"), None);
    assert!(j.get("a").is_some());
    assert_eq!(j.get("c"), None);
    assert_eq!(text("x").get("a"), None);
}

#[test]
fn numbers_and_nesting_survive_parsing() {
    let mut state = ParseState::new();
    let line = r#"{"type":"stream_event","event":{"type":"message_start","index":0,"message":{"id":"m7","usage":{"input_tokens":12.5},"content":[]}}}"#;
    assert_eq!(normalize(line, &mut state), Some(start("m7")));
    let dup = r#"{"type":"error","error":"first","error":"second"}"#;
    assert_eq!(normalize(dup, &mut state), Some(StreamEvent::Error { error: "second".to_string() }));
}

#[test]
fn flush_with_and_without_message() {
    let (_, state) = run_lines(&[START_M1, DELTA_HI]);
    assert_eq!(flush(&state), Some(complete("m1", "Hi")));
    assert_eq!(flush(&ParseState::new()), None);
}

#[test]
fn verbose_create_stream_reconciles_key() {
    let mut reg: ProcessRegistry<u32> = ProcessRegistry::new();
    let mut pump = register_process(&mut reg, "temp-abc".to_string(), 7, true, true).unwrap();
    assert!(reg.contains("temp-abc"));

    let out = pump.on_line(&mut reg, r#"{"type":"system","session_id":"real-1"}"#);
    let update = StreamEvent::SessionIdUpdated {
        temp_id: "temp-abc".to_string(),
        real_id: "real-1".to_string(),
    };
    assert_eq!(out, vec![emission("temp-abc", update.clone()), emission("real-1", update)]);
    assert!(!reg.contains("temp-abc"));
    assert!(reg.contains("real-1"));

    let out = pump.on_line(
        &mut reg,
        r#"{"type":"assistant","message":{"id":"m2","content":[{"text":"Hello"}]}}"#,
    );
    assert_eq!(out, vec![emission("real-1", delta("m2", "Hello"))]);
    let out = pump.on_line(&mut reg, r#"{"type":"result"}"#);
    assert_eq!(out, vec![emission("real-1", complete("m2", "Hello"))]);

    let (out, handle) = pump.on_eof(&mut reg);
    assert!(out.is_empty());
    assert_eq!(handle, Some(7));
    assert!(!reg.contains("real-1"));
}

#[test]
fn later_system_lines_do_not_reconcile_again() {
    let mut reg: ProcessRegistry<u32> = ProcessRegistry::new();
    reg.insert("other".to_string(), 99);
    let mut pump = register_process(&mut reg, "temp-abc".to_string(), 7, true, true).unwrap();
    pump.on_line(&mut reg, r#"{"type":"system","session_id":"real-1"}"#);
    let out = pump.on_line(&mut reg, r#"{"type":"system","session_id":"real-2"}"#);
    assert!(out.is_empty());
    assert!(reg.contains("real-1"));
    assert!(!reg.contains("real-2"));
    assert!(!reg.contains("temp-abc"));
    assert!(reg.contains("other"));
    let out = pump.on_line(&mut reg, START_M1);
    assert_eq!(out, vec![emission("real-1", start("m1"))]);
    pump.on_line(&mut reg, DELTA_HI);
    let (out, handle) = pump.on_eof(&mut reg);
    assert_eq!(out, vec![emission("real-1", complete("m1", "Hi"))]);
    assert_eq!(handle, Some(7));
}

#[test]
fn resume_stream_keeps_its_key() {
    let mut reg: ProcessRegistry<u32> = ProcessRegistry::new();
    let mut pump = register_process(&mut reg, "sess-9".to_string(), 1, true, false).unwrap();
    let out = pump.on_line(&mut reg, r#"{"type":"system","session_id":"other"}"#);
    assert!(out.is_empty());
    assert!(reg.contains("sess-9"));
    assert!(!reg.contains("other"));
    let out = pump.on_line(&mut reg, START_M1);
    assert_eq!(out, vec![emission("sess-9", start("m1"))]);
}

#[test]
fn blank_lines_are_skipped() {
    let mut reg: ProcessRegistry<u32> = ProcessRegistry::new();
    let mut pump = register_process(&mut reg, "k".to_string(), 1, true, false).unwrap();
    assert!(pump.on_line(&mut reg, "").is_empty());
    assert!(pump.on_line(&mut reg, "  \t ").is_empty());
    assert_eq!(pump.on_line(&mut reg, START_M1).len(), 1);
}

#[test]
fn end_of_stream_flushes_once() {
    let mut reg: ProcessRegistry<u32> = ProcessRegistry::new();
    let mut pump = register_process(&mut reg, "k".to_string(), 3, true, false).unwrap();
    pump.on_line(&mut reg, START_M1);
    pump.on_line(&mut reg, DELTA_HI);
    let (out, handle) = pump.on_eof(&mut reg);
    assert_eq!(out, vec![emission("k", complete("m1", "Hi"))]);
    assert_eq!(handle, Some(3));
    assert!(!reg.contains("k"));
    let (again, none) = pump.on_eof(&mut reg);
    assert!(again.is_empty());
    assert_eq!(none, None);
    assert!(pump.on_line(&mut reg, DELTA_HI).is_empty());
    assert!(pump.on_line(&mut reg, STOP).is_empty());
}

#[test]
fn end_of_stream_without_message_emits_nothing() {
    let mut reg: ProcessRegistry<u32> = ProcessRegistry::new();
    let mut pump = register_process(&mut reg, "k".to_string(), 3, true, false).unwrap();
    let (out, handle) = pump.on_eof(&mut reg);
    assert!(out.is_empty());
    assert_eq!(handle, Some(3));
}

#[test]
fn missing_stdout_registers_nothing() {
    let mut reg: ProcessRegistry<u32> = ProcessRegistry::new();
    match register_process(&mut reg, "k".to_string(), 5, false, true) {
        Err((e, h)) => {
            assert_eq!(e, SessionError::StdoutUnavailable);
            assert_eq!(h, 5);
        }
        Ok(_) => panic!("registered without stdout"),
    }
    assert!(!reg.contains("k"));
}

#[test]
fn cancel_live_and_unknown_keys() {
    let mut reg: ProcessRegistry<u32> = ProcessRegistry::new();
    assert_eq!(cancel_session(&mut reg, "never"), Err(SessionError::NotRunning));
    reg.insert("a".to_string(), 10);
    reg.insert("b".to_string(), 20);
    assert_eq!(cancel_session(&mut reg, "a"), Ok(10));
    assert!(!reg.contains("a"));
    assert!(reg.contains("b"));
    assert_eq!(cancel_session(&mut reg, "a"), Err(SessionError::NotRunning));
}

#[test]
fn cancel_after_stream_end_is_not_running() {
    let mut reg: ProcessRegistry<u32> = ProcessRegistry::new();
    let mut pump = register_process(&mut reg, "k".to_string(), 3, true, false).unwrap();
    pump.on_eof(&mut reg);
    assert_eq!(cancel_session(&mut reg, "k"), Err(SessionError::NotRunning));
}

#[test]
fn registry_insert_rekey_remove() {
    let mut reg: ProcessRegistry<u32> = ProcessRegistry::new();
    assert_eq!(reg.insert("x".to_string(), 1), None);
    assert_eq!(reg.insert("x".to_string(), 2), Some(1));
    assert!(reg.rekey("x", "y".to_string()));
    assert!(!reg.rekey("x", "z".to_string()));
    assert!(!reg.contains("z"));
    assert_eq!(reg.remove("y"), Some(2));
    assert_eq!(reg.remove("y"), None);
}
