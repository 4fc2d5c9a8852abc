use herdr_last_tab::error::command_failure;
use herdr_last_tab::json::{string_at, JsonValue};
use herdr_last_tab::protocol::{
    check_tab_list_response, herdr_error_message, parse_context_tab_id, parse_event_tab_id,
};
use herdr_last_tab::tabs::{TabInfo, TabSnapshot};

fn event_json(tab_id: &str) -> String {
    format!(r#"{{"event":"tab_focused","data":{{"type":"tab_focused","tab_id":"{tab_id}"}}}}"#)
}

/// Decodes the tabs of a checked `tab list` response, field by field.
fn decode_tabs(stdout: &[u8]) -> TabSnapshot {
    let value: serde_json::Value = serde_json::from_slice(stdout).expect("response should parse");
    let tabs = value["result"]["tabs"]
        .as_array()
        .expect("tabs should be a list")
        .iter()
        .map(|tab| TabInfo {
            tab_id: tab["tab_id"].as_str().unwrap().to_string(),
            workspace_id: tab["workspace_id"].as_str().unwrap().to_string(),
            focused: tab["focused"].as_bool().unwrap(),
        })
        .collect();
    TabSnapshot { tabs }
}

#[test]
fn parses_tab_list_response() {
    let response = br#"{
            "id":"cli:tab:list",
            "result":{
                "type":"tab_list",
                "tabs":[
                    {"tab_id":"tab-1","workspace_id":"w1","number":2,"label":"B","focused":true},
                    {"tab_id":"tab-0","workspace_id":"w1","number":1,"label":"A","focused":false}
                ]
            }
        }"#;

    check_tab_list_response(response).expect("response should parse");
    let snapshot = decode_tabs(response);

    assert_eq!(snapshot.focused_tab_id(), Some("tab-1"));
    assert!(snapshot.contains_tab("tab-0"));
    assert!(!snapshot.contains_tab("tab-2"));
}

#[test]
fn tab_list_that_is_not_json_is_refused() {
    let expected_detail = serde_json::from_slice::<serde_json::Value>(b"not json")
        .unwrap_err()
        .to_string();
    let error = check_tab_list_response(b"not json").unwrap_err();
    assert_eq!(
        error.message(),
        format!("failed to parse HERDR_BIN_PATH tab list JSON: {expected_detail}")
    );
}

#[test]
fn tab_list_with_herdr_error_is_refused() {
    let error = check_tab_list_response(
        br#"{"id":"cli:tab:list","error":{"code":"not_found","message":"no session"}}"#,
    )
    .unwrap_err();
    assert_eq!(
        error.message(),
        "HERDR_BIN_PATH tab list returned an error: not_found: no session"
    );
}

#[test]
fn herdr_error_message_forms() {
    let reported = |raw: &str| -> Option<String> {
        match check_tab_list_response(raw.as_bytes()) {
            Ok(()) => None,
            Err(error) => Some(
                error
                    .message()
                    .strip_prefix("HERDR_BIN_PATH tab list returned an error: ")
                    .expect("the error should come from the error member")
                    .to_string(),
            ),
        }
    };
    assert_eq!(
        reported(r#"{"error":{"code":"c","message":"m"}}"#),
        Some("c: m".to_string())
    );
    assert_eq!(reported(r#"{"error":{"code":"c"}}"#), Some("c".to_string()));
    assert_eq!(
        reported(r#"{"error":{"message":"m","code":7}}"#),
        Some("m".to_string())
    );
    assert_eq!(
        reported(r#"{"error":{"detail":[1,2.5,null,true],"b":"x"}}"#),
        Some(r#"{"b":"x","detail":[1,2.5,null,true]}"#.to_string())
    );
    assert_eq!(
        reported(r#"{"error":{"n":-0.1,"big":1e300,"neg":-7}}"#),
        Some(r#"{"big":1e+300,"n":-0.1,"neg":-7}"#.to_string())
    );
    assert_eq!(reported(r#"{"error":5}"#), Some("5".to_string()));
    assert_eq!(reported(r#"{"result":{}}"#), None);
    assert_eq!(reported(r#"["error"]"#), None);
    let document = to_library(serde_json::from_str(r#"{"error":{"code":"c","message":"m"}}"#).unwrap());
    assert_eq!(herdr_error_message(&document), Some("c: m".to_string()));
    let document = to_library(serde_json::from_str(r#"{"error":null}"#).unwrap());
    assert_eq!(herdr_error_message(&document), Some("null".to_string()));
}

/// The library's document for a value without numbers (the library alone reads numbers).
fn to_library(value: serde_json::Value) -> JsonValue {
    match value {
        serde_json::Value::Null => JsonValue::Null,
        serde_json::Value::Bool(b) => JsonValue::Bool(b),
        serde_json::Value::Number(_) => unreachable!(),
        serde_json::Value::String(s) => JsonValue::Text(s),
        serde_json::Value::Array(items) => {
            JsonValue::Array(items.into_iter().map(to_library).collect())
        }
        serde_json::Value::Object(map) => {
            JsonValue::Object(map.into_iter().map(|(k, v)| (k, to_library(v))).collect())
        }
    }
}

#[test]
fn event_tab_id_is_read_from_data_then_top_level() {
    assert_eq!(parse_event_tab_id(&event_json("tab-7")), Some("tab-7".to_string()));
    assert_eq!(parse_event_tab_id(r#"{"tab_id":"tab-3"}"#), Some("tab-3".to_string()));
    assert_eq!(
        parse_event_tab_id(r#"{"data":{"tab_id":""},"tab_id":"tab-3"}"#),
        Some("tab-3".to_string())
    );
    assert_eq!(
        parse_event_tab_id(r#"{"data":{"tab_id":5},"tab_id":"tab-4"}"#),
        Some("tab-4".to_string())
    );
    assert_eq!(parse_event_tab_id(r#"{"data":{"tab_id":""}}"#), None);
    assert_eq!(parse_event_tab_id(r#"{"tab_id":null}"#), None);
    assert_eq!(parse_event_tab_id("not json"), None);
    assert_eq!(parse_event_tab_id(""), None);
}

#[test]
fn context_tab_id_is_read_from_top_level_only() {
    assert_eq!(parse_context_tab_id(r#"{"tab_id":"tab-2"}"#), Some("tab-2".to_string()));
    assert_eq!(parse_context_tab_id(&event_json("tab-7")), None);
    assert_eq!(parse_context_tab_id(r#"{"tab_id":""}"#), None);
    assert_eq!(parse_context_tab_id("{"), None);
}

#[test]
fn string_at_follows_the_path() {
    let value = to_library(
        serde_json::from_str(r#"{"a":{"b":"deep"},"top":"level","empty":""}"#).unwrap(),
    );
    assert_eq!(string_at(&value, &["a", "b"]), Some("deep".to_string()));
    assert_eq!(string_at(&value, &["a"]), None);
    assert_eq!(string_at(&value, &["top"]), Some("level".to_string()));
    assert_eq!(string_at(&value, &["missing", "b"]), None);
    assert_eq!(string_at(&value, &["empty"]), None);
    assert_eq!(JsonValue::Text("x".to_string()).as_str(), Some("x"));
    assert!(value.get("nope").is_none());
}

#[test]
fn command_failure_prefers_stderr_then_stdout_then_status() {
    let error = command_failure("HERDR_BIN_PATH tab list", b"  boom \n", b"out", "exit status: 3");
    assert_eq!(error.message(), "HERDR_BIN_PATH tab list failed: boom");
    let error = command_failure("HERDR_BIN_PATH tab focus", b" \t\n", b"\n said so \n", "exit status: 3");
    assert_eq!(error.message(), "HERDR_BIN_PATH tab focus failed: said so");
    let error = command_failure("HERDR_BIN_PATH tab focus", b"", b"  ", "exit status: 3");
    assert_eq!(error.message(), "HERDR_BIN_PATH tab focus failed: exit status: 3");
    let error = command_failure("cmd", "\u{3000}boom\u{2028}\u{85}".as_bytes(), b"", "s");
    assert_eq!(error.message(), "cmd failed: boom");
    let error = command_failure("cmd", b"bad \xff byte", b"", "s");
    assert_eq!(error.message(), "cmd failed: bad \u{fffd} byte");
}
