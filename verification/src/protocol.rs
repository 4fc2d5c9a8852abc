//! What the plugin reads from Herdr's JSON: the tab of an event or of an action's
//! context, and the error that a `tab list` response may carry.
use vstd::prelude::*;
use vstd::string::StringExecFns;
use crate::error::PluginError;
use crate::json::{
    compact_text, json_compact_text, json_from_bytes, json_from_text, member, nonempty_text_at,
    parse_json_bytes, parse_json_text, string_at, text_of, JsonValue, JsonView,
};

verus! {

/// The tab named by an event: `data.tab_id`, else a top-level `tab_id`.
pub open spec fn event_tab_id_in(v: JsonView) -> Option<Seq<char>> {
    match nonempty_text_at(v, seq!["data"@, "tab_id"@]) {
        Some(id) => Some(id),
        None => nonempty_text_at(v, seq!["tab_id"@]),
    }
}

/// The tab named by the event JSON `raw`, when it parses and names one.
pub open spec fn event_tab_id(raw: Seq<char>) -> Option<Seq<char>> {
    match json_from_text(raw) {
        Some(v) => event_tab_id_in(v),
        None => None,
    }
}

/// The tab named by the action context JSON `raw`, when it parses and names one.
pub open spec fn context_tab_id(raw: Seq<char>) -> Option<Seq<char>> {
    match json_from_text(raw) {
        Some(v) => nonempty_text_at(v, seq!["tab_id"@]),
        None => None,
    }
}

/// The message of Herdr's `error` member: `code: message`, either one alone,
/// or the whole member printed as JSON when it has neither as a string.
pub open spec fn error_message(v: JsonView) -> Option<Seq<char>> {
    match member(v, "error"@) {
        None => None,
        Some(error) => {
            let code = match member(error, "code"@) {
                Some(c) => text_of(c),
                None => None,
            };
            let message = match member(error, "message"@) {
                Some(m) => text_of(m),
                None => None,
            };
            Some(
                match (code, message) {
                    (Some(c), Some(m)) => c + ": "@ + m,
                    (Some(c), None) => c,
                    (None, Some(m)) => m,
                    (None, None) => json_compact_text(error),
                },
            )
        },
    }
}

/// The tab id carried by a `tab.focused` or `tab.closed` event.
pub fn parse_event_tab_id(raw: &str) -> (res: Option<String>)
    ensures
        res.deep_view() == event_tab_id(raw@),
{
    let value = match parse_json_text(raw) {
        Some(value) => value,
        None => return None,
    };
    let nested: [&str; 2] = ["data", "tab_id"];
    let top: [&str; 1] = ["tab_id"];
    assert(nested@.map_values(|segment: &str| segment@) =~= seq!["data"@, "tab_id"@]);
    assert(top@.map_values(|segment: &str| segment@) =~= seq!["tab_id"@]);
    match string_at(&value, nested.as_slice()) {
        Some(id) => Some(id),
        None => string_at(&value, top.as_slice()),
    }
}

/// The tab id carried by an action's context.
pub fn parse_context_tab_id(raw: &str) -> (res: Option<String>)
    ensures
        res.deep_view() == context_tab_id(raw@),
{
    let value = match parse_json_text(raw) {
        Some(value) => value,
        None => return None,
    };
    let top: [&str; 1] = ["tab_id"];
    assert(top@.map_values(|segment: &str| segment@) =~= seq!["tab_id"@]);
    string_at(&value, top.as_slice())
}

/// The error that a Herdr response reports, if it has an `error` member.
pub fn herdr_error_message(value: &JsonValue) -> (res: Option<String>)
    ensures
        res.deep_view() == error_message(value.deep()),
{
    let error = match value.get("error") {
        Some(error) => error,
        None => return None,
    };
    let code = match error.get("code") {
        Some(c) => c.as_str(),
        None => None,
    };
    let message = match error.get("message") {
        Some(m) => m.as_str(),
        None => None,
    };
    match (code, message) {
        (Some(c), Some(m)) => {
            let mut text = c.to_owned();
            text.append(": ");
            text.append(m);
            Some(text)
        },
        (Some(c), None) => Some(c.to_owned()),
        (None, Some(m)) => Some(m.to_owned()),
        (None, None) => Some(compact_text(error)),
    }
}

/// What the stdout of `tab list` says before its tabs are decoded: that it is not JSON,
/// that Herdr reported an error, or nothing against it.
pub open spec fn tab_list_refusal(stdout: Seq<u8>) -> Option<Seq<char>> {
    match json_from_bytes(stdout) {
        Err(e) => Some("failed to parse HERDR_BIN_PATH tab list JSON: "@ + e),
        Ok(v) => match error_message(v) {
            Some(m) => Some("HERDR_BIN_PATH tab list returned an error: "@ + m),
            None => None,
        },
    }
}

/// Checks the stdout of `tab list`: it must be JSON and must not carry Herdr's `error`.
pub fn check_tab_list_response(stdout: &[u8]) -> (res: Result<(), PluginError>)
    ensures
        match tab_list_refusal(stdout@) {
            Some(m) => res matches Err(e) && e@ == m,
            None => res is Ok,
        },
{
    let value = match parse_json_bytes(stdout) {
        Ok(value) => value,
        Err(error) => {
            let mut text = "failed to parse HERDR_BIN_PATH tab list JSON: ".to_owned();
            text.append(error.as_str());
            return Err(PluginError::new(text));
        },
    };
    match herdr_error_message(&value) {
        Some(message) => {
            let mut text = "HERDR_BIN_PATH tab list returned an error: ".to_owned();
            text.append(message.as_str());
            Err(PluginError::new(text))
        },
        None => Ok(()),
    }
}

} // verus!
