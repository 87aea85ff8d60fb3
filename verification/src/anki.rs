//! The study-collection registration protocol: the request envelope the
//! local control endpoint expects, and the reading of its reply. Posting the
//! envelope is I/O at the program's edge; a caller sends the built request
//! and feeds the decoded reply back through `anki_response_result`.

use vstd::prelude::*;
use vstd::string::StringExecFns;
use crate::json::{find_field, json_get, json_str_or_empty, JsonValue};

verus! {

/// The protocol version every request envelope carries.
pub const ANKI_PROTOCOL_VERSION: i64 = 6;

/// The error text of a reply: its `error` member when that is text, empty
/// otherwise. Non-empty error text signals failure.
pub open spec fn anki_error_text(resp: JsonValue) -> Seq<char> {
    json_str_or_empty(resp, "error"@)
}

/// Build the request envelope `{action, params, version}` for the control
/// endpoint.
pub fn anki_request(action: &str, params: JsonValue) -> (r: JsonValue)
    ensures
        r matches JsonValue::Obj(fields) && {
            &&& fields@.len() == 3
            &&& fields@[0].0@ == "action"@
            &&& fields@[0].1 matches JsonValue::Str(a) && a@ == action@
            &&& fields@[1].0@ == "params"@
            &&& fields@[1].1 == params
            &&& fields@[2].0@ == "version"@
            &&& fields@[2].1 == JsonValue::Int(ANKI_PROTOCOL_VERSION)
        },
{
    let mut fields: Vec<(String, JsonValue)> = Vec::new();
    fields.push((String::from_str("action"), JsonValue::Str(String::from_str(action))));
    fields.push((String::from_str("params"), params));
    fields.push((String::from_str("version"), JsonValue::Int(ANKI_PROTOCOL_VERSION)));
    JsonValue::Obj(fields)
}

/// Build the parameters that register a downloaded audio file: its file name
/// and its full path.
pub fn store_media_params(filename: &str, path: &str) -> (r: JsonValue)
    ensures
        r matches JsonValue::Obj(fields) && {
            &&& fields@.len() == 2
            &&& fields@[0].0@ == "filename"@
            &&& fields@[0].1 matches JsonValue::Str(f) && f@ == filename@
            &&& fields@[1].0@ == "path"@
            &&& fields@[1].1 matches JsonValue::Str(p) && p@ == path@
        },
{
    let mut fields: Vec<(String, JsonValue)> = Vec::new();
    fields.push((String::from_str("filename"), JsonValue::Str(String::from_str(filename))));
    fields.push((String::from_str("path"), JsonValue::Str(String::from_str(path))));
    JsonValue::Obj(fields)
}

/// Read a control-endpoint reply: non-empty `error` text is a failure
/// carrying that text in its report; otherwise the reply's `result` member
/// is handed back, `Null` when it has none.
pub fn anki_response_result(resp: JsonValue) -> (r: Result<JsonValue, String>)
    ensures
        anki_error_text(resp).len() > 0 ==> (r matches Err(m) && m@ == "Error from AnkiConnect: "@
            + anki_error_text(resp)),
        anki_error_text(resp).len() == 0 ==> (r matches Ok(v) && v == (match json_get(
            resp,
            "result"@,
        ) {
            Some(x) => x,
            None => JsonValue::Null,
        })),
{
    match resp.get("error") {
        Some(v) => match v {
            JsonValue::Str(s) => {
                if !s.as_str().is_empty() {
                    let mut msg = String::from_str("Error from AnkiConnect: ");
                    msg.append(s.as_str());
                    return Err(msg);
                }
            },
            _ => {},
        },
        None => {},
    }
    match resp {
        JsonValue::Obj(mut fields) => match find_field(&fields, "result") {
            Some(i) => {
                let pair = fields.remove(i);
                Ok(pair.1)
            },
            None => Ok(JsonValue::Null),
        },
        _ => Ok(JsonValue::Null),
    }
}

} // verus!
