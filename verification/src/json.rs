//! A model of JSON documents, the lookups that the plugin makes in them,
//! and the calls into `serde_json` that parse and print them.
use vstd::prelude::*;
use vstd::string::StringExecFns;

verus! {

/// A JSON document as the library reads it.
#[derive(Debug)]
pub enum JsonValue {
    Null,
    Bool(bool),
    /// A number, as the parser read it.
    Number(JsonNumber),
    Text(String),
    Array(Vec<JsonValue>),
    /// The members of an object, in the order the parser keeps them.
    Object(Vec<(String, JsonValue)>),
}

/// A number read by `serde_json`: the text that its `Display` prints, and the parsed number,
/// which is only carried back to `serde_json` for printing. The fields are private: only the
/// parser's conversion below makes a `JsonNumber`, always with `text` printed from `value`,
/// so the text determines what `serde_json` prints for the number.
#[derive(Debug)]
pub struct JsonNumber {
    text: String,
    value: serde_json::Number,
}

impl JsonNumber {
    /// The text of the number.
    pub closed spec fn text_view(&self) -> Seq<char> {
        self.text@
    }
}

/// The mathematical model of a JSON document.
pub enum JsonView {
    Null,
    Bool(bool),
    Number(Seq<char>),
    Text(Seq<char>),
    Array(Seq<JsonView>),
    Object(Seq<(Seq<char>, JsonView)>),
}

impl JsonValue {
    /// The model of this document.
    pub open spec fn deep(self) -> JsonView
        decreases self,
    {
        match self {
            JsonValue::Null => JsonView::Null,
            JsonValue::Bool(b) => JsonView::Bool(b),
            JsonValue::Number(n) => JsonView::Number(n.text_view()),
            JsonValue::Text(s) => JsonView::Text(s@),
            JsonValue::Array(items) => JsonView::Array(
                Seq::new(
                    items@.len(),
                    |i: int|
                        if 0 <= i < items@.len() {
                            items@[i].deep()
                        } else {
                            JsonView::Null
                        },
                ),
            ),
            JsonValue::Object(fields) => JsonView::Object(
                Seq::new(
                    fields@.len(),
                    |i: int|
                        if 0 <= i < fields@.len() {
                            (fields@[i].0@, fields@[i].1.deep())
                        } else {
                            (Seq::empty(), JsonView::Null)
                        },
                ),
            ),
        }
    }
}

/// The model of an optional reference into a document.
pub open spec fn deep_opt(v: Option<&JsonValue>) -> Option<JsonView> {
    match v {
        Some(r) => Some(r.deep()),
        None => None,
    }
}

/// The value of the first member named `key`, if any.
pub open spec fn field_value(fields: Seq<(Seq<char>, JsonView)>, key: Seq<char>) -> Option<JsonView>
    decreases fields.len(),
{
    if fields.len() == 0 {
        None
    } else if fields[0].0 == key {
        Some(fields[0].1)
    } else {
        field_value(fields.drop_first(), key)
    }
}

/// The member `key` of an object; nothing for any other kind of value.
pub open spec fn member(v: JsonView, key: Seq<char>) -> Option<JsonView> {
    match v {
        JsonView::Object(fields) => field_value(fields, key),
        _ => None,
    }
}

/// The value reached from `v` by following the member names of `path` in turn.
pub open spec fn member_at(v: JsonView, path: Seq<Seq<char>>) -> Option<JsonView>
    decreases path.len(),
{
    if path.len() == 0 {
        Some(v)
    } else {
        match member(v, path[0]) {
            Some(child) => member_at(child, path.drop_first()),
            None => None,
        }
    }
}

/// The text of a JSON string; nothing for any other kind of value.
pub open spec fn text_of(v: JsonView) -> Option<Seq<char>> {
    match v {
        JsonView::Text(s) => Some(s),
        _ => None,
    }
}

/// The string found at `path`, when it is there and is not empty.
pub open spec fn nonempty_text_at(v: JsonView, path: Seq<Seq<char>>) -> Option<Seq<char>> {
    match member_at(v, path) {
        Some(JsonView::Text(s)) => if s.len() > 0 { Some(s) } else { None },
        _ => None,
    }
}

/// `serde_json::Value`, carried through the conversions below and never read by verified code.
#[verifier::external_type_specification]
#[verifier::external_body]
pub struct ExSerdeJsonValue(serde_json::Value);

/// `serde_json::Number`, carried from parsing back to printing and never read by verified code.
#[verifier::external_type_specification]
#[verifier::external_body]
pub struct ExSerdeJsonNumber(serde_json::Number);

/// What `serde_json::from_slice` makes of `bytes`: the document, or the text of its error.
pub uninterp spec fn json_from_bytes(bytes: Seq<u8>) -> Result<JsonView, Seq<char>>;

/// What `serde_json::from_str` makes of `text`, when it accepts it.
pub uninterp spec fn json_from_text(text: Seq<char>) -> Option<JsonView>;

/// The compact text that `serde_json` prints for a document. A number prints as its
/// `Display` text, which is the text the model keeps, so the model determines the output.
pub uninterp spec fn json_compact_text(v: JsonView) -> Seq<char>;

/// Converts a parsed `serde_json::Value` into the library's document, one node for one node.
#[verifier::external_body]
fn from_serde(value: serde_json::Value) -> JsonValue {
    match value {
        serde_json::Value::Null => JsonValue::Null,
        serde_json::Value::Bool(b) => JsonValue::Bool(b),
        serde_json::Value::Number(n) => JsonValue::Number(JsonNumber { text: n.to_string(), value: n }),
        serde_json::Value::String(s) => JsonValue::Text(s),
        serde_json::Value::Array(items) => JsonValue::Array(items.into_iter().map(from_serde).collect()),
        serde_json::Value::Object(map) => JsonValue::Object(map.into_iter().map(|(k, v)| (k, from_serde(v))).collect()),
    }
}

/// Converts the library's document back into a `serde_json::Value`, one node for one node.
#[verifier::external_body]
fn to_serde(value: &JsonValue) -> serde_json::Value {
    match value {
        JsonValue::Null => serde_json::Value::Null,
        JsonValue::Bool(b) => serde_json::Value::Bool(*b),
        JsonValue::Number(n) => serde_json::Value::Number(n.value.clone()),
        JsonValue::Text(s) => serde_json::Value::String(s.clone()),
        JsonValue::Array(items) => serde_json::Value::Array(items.iter().map(to_serde).collect()),
        JsonValue::Object(fields) => serde_json::Value::Object(fields.iter().map(|(k, v)| (k.clone(), to_serde(v))).collect()),
    }
}

/// Calls `serde_json::from_slice` for a `serde_json::Value`.
/// Claimed: the result is the document named by `json_from_bytes` for these bytes,
/// or the text that the parser's error displays; the parser is deterministic.
#[verifier::external_body]
pub(crate) fn parse_json_bytes(bytes: &[u8]) -> (res: Result<JsonValue, String>)
    ensures
        json_from_bytes(bytes@) == match res {
            Ok(v) => Ok(v.deep()),
            Err(e) => Err::<JsonView, Seq<char>>(e@),
        },
{
    match serde_json::from_slice::<serde_json::Value>(bytes) {
        Ok(value) => Ok(from_serde(value)),
        Err(error) => Err(error.to_string()),
    }
}

/// Calls `serde_json::from_str` for a `serde_json::Value`.
/// Claimed: the result is the document named by `json_from_text` for this text,
/// nothing exactly where the parser refuses it.
#[verifier::external_body]
pub(crate) fn parse_json_text(text: &str) -> (res: Option<JsonValue>)
    ensures
        json_from_text(text@) == match res {
            Some(v) => Some(v.deep()),
            None => None::<JsonView>,
        },
{
    serde_json::from_str::<serde_json::Value>(text).ok().map(from_serde)
}

/// Calls `to_string` on a `serde_json::Value` (its compact `Display`).
/// Claimed: the text is the one named by `json_compact_text` for the document. This rests
/// on every `JsonNumber` having been made by `from_serde`, whose text is the number's
/// `Display`, the same text that printing a `Value` writes for it.
#[verifier::external_body]
pub(crate) fn compact_text(value: &JsonValue) -> (res: String)
    ensures
        res@ == json_compact_text(value.deep()),
{
    to_serde(value).to_string()
}

impl JsonValue {
    /// The member `key` of an object, as `serde_json::Value::get` finds it.
    pub fn get(&self, key: &str) -> (res: Option<&JsonValue>)
        ensures
            deep_opt(res) == member(self.deep(), key@),
    {
        match self {
            JsonValue::Object(fields) => {
                let wanted = key.to_owned();
                let ghost model = self.deep()->Object_0;
                let mut i: usize = 0;
                assert(model.skip(0) =~= model);
                while i < fields.len()
                    invariant
                        i <= fields@.len(),
                        model == self.deep()->Object_0,
                        *self == JsonValue::Object(*fields),
                        wanted@ == key@,
                        model.len() == fields@.len(),
                        field_value(model, key@) == field_value(model.skip(i as int), key@),
                    decreases fields@.len() - i,
                {
                    assert(model[i as int] == (fields@[i as int].0@, fields@[i as int].1.deep()));
                    if fields[i].0 == wanted {
                        return Some(&fields[i].1);
                    }
                    assert(model.skip(i as int).drop_first() =~= model.skip(i + 1));
                    i = i + 1;
                }
                None
            },
            _ => None,
        }
    }

    /// The text of a JSON string, as `serde_json::Value::as_str` gives it.
    pub fn as_str(&self) -> (res: Option<&str>)
        ensures
            match res {
                Some(s) => text_of(self.deep()) == Some(s@),
                None => text_of(self.deep()) is None,
            },
    {
        match self {
            JsonValue::Text(s) => Some(s.as_str()),
            _ => None,
        }
    }
}

/// The model of a path of member names.
pub open spec fn path_view(path: Seq<&str>) -> Seq<Seq<char>> {
    path.map_values(|segment: &str| segment@)
}

/// The non-empty string found by following `path` from `value`, as an owned copy.
pub fn string_at(value: &JsonValue, path: &[&str]) -> (res: Option<String>)
    ensures
        res.deep_view() == nonempty_text_at(value.deep(), path_view(path@)),
{
    let ghost segments = path_view(path@);
    let mut current = value;
    let mut i: usize = 0;
    assert(segments.skip(0) =~= segments);
    while i < path.len()
        invariant
            i <= path@.len(),
            segments == path_view(path@),
            segments.len() == path@.len(),
            member_at(value.deep(), segments) == member_at(current.deep(), segments.skip(i as int)),
        decreases path@.len() - i,
    {
        assert(segments.skip(i as int)[0] == path@[i as int]@);
        assert(segments.skip(i as int).drop_first() =~= segments.skip(i + 1));
        match current.get(path[i]) {
            Some(next) => {
                current = next;
            },
            None => {
                return None;
            },
        }
        i = i + 1;
    }
    assert(segments.skip(i as int) =~= Seq::<Seq<char>>::empty());
    match current.as_str() {
        Some(text) => {
            if text.is_empty() {
                None
            } else {
                Some(text.to_owned())
            }
        },
        None => None,
    }
}

} // verus!
