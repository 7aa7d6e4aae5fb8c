//! JSON bodies: shown compactly by `fetch`, sent and shown indented by `out`,
//! and read for the `company` of a MAC vendor.
use vstd::prelude::*;
use crate::error::NtkError;
use crate::mac::{VendorReport, vendor_report};
use crate::text::push_str;

verus! {

/// The text parsed as JSON and written back compactly (as `Display` of a JSON
/// value writes it); nothing when the text is not JSON.
pub uninterp spec fn json_compact_spec(text: Seq<char>) -> Option<Seq<char>>;

/// `serde_json::from_str` into a JSON value, then its `to_string`. The result
/// is taken as the function `json_compact_spec` of the text (`Ok` exactly when
/// that is `Some`); the error is given as its message, of which nothing is
/// stated.
#[verifier::external_body]
fn json_compact(text: &str) -> (r: Result<String, String>)
    ensures
        r is Ok <==> json_compact_spec(text@) is Some,
        r matches Ok(s) ==> s@ == json_compact_spec(text@).unwrap(),
{
    match serde_json::from_str::<serde_json::Value>(text) {
        Ok(v) => Ok(v.to_string()),
        Err(e) => Err(e.to_string()),
    }
}

/// The text parsed as JSON and written back indented (as
/// `serde_json::to_string_pretty` writes it); nothing when the text is not
/// JSON.
pub uninterp spec fn json_pretty_spec(text: Seq<char>) -> Option<Seq<char>>;

/// `serde_json::from_str` into a JSON value, then `serde_json::to_string_pretty`.
/// The result is taken as the function `json_pretty_spec` of the text.
#[verifier::external_body]
fn json_pretty(text: &str) -> (r: Option<String>)
    ensures
        r is Some <==> json_pretty_spec(text@) is Some,
        r matches Some(s) ==> s@ == json_pretty_spec(text@).unwrap(),
{
    match serde_json::from_str::<serde_json::Value>(text) {
        Ok(v) => serde_json::to_string_pretty(&v).ok(),
        Err(_) => None,
    }
}

/// The text parsed as JSON, then its field `key` when that is a string:
/// nothing when the text is not JSON, `Some(None)` when the field is missing
/// or not a string.
pub uninterp spec fn json_str_field_spec(text: Seq<char>, key: Seq<char>) -> Option<Option<Seq<char>>>;

/// `serde_json::from_str` into a JSON value, then `get(key)` and `as_str`. The
/// result is taken as the function `json_str_field_spec` of the text and the
/// key.
#[verifier::external_body]
fn json_str_field(text: &str, key: &str) -> (r: Option<Option<String>>)
    ensures
        match json_str_field_spec(text@, key@) {
            Some(Some(s)) => r matches Some(Some(t)) && t@ == s,
            Some(None) => r == Some(None::<String>),
            None => r is None,
        },
{
    match serde_json::from_str::<serde_json::Value>(text) {
        Ok(v) => match v.get(key) {
            Some(c) => match c.as_str() {
                Some(name) => Some(Some(name.to_string())),
                None => Some(None),
            },
            None => Some(None),
        },
        Err(_) => None,
    }
}

/// A JSON response body as `fetch` shows it: written back compactly. A body
/// that is not JSON is a `FetchFailedToGetJson`.
pub fn json_body_text(body: &str) -> (r: Result<String, NtkError>)
    ensures
        json_compact_spec(body@) matches Some(t) ==> (r matches Ok(s) && s@ == t),
        json_compact_spec(body@) is None ==> r matches Err(NtkError::FetchFailedToGetJson(_)),
{
    match json_compact(body) {
        Ok(s) => Ok(s),
        Err(e) => Err(NtkError::FetchFailedToGetJson(e)),
    }
}

/// The body that `out` sends from a file: its JSON, written compactly. A file
/// that is not JSON is a `JsonParseFailure`.
pub fn out_request_body(contents: &str) -> (r: Result<String, NtkError>)
    ensures
        json_compact_spec(contents@) matches Some(t) ==> (r matches Ok(s) && s@ == t),
        json_compact_spec(contents@) is None ==> r matches Err(NtkError::JsonParseFailure(_)),
{
    match json_compact(contents) {
        Ok(s) => Ok(s),
        Err(e) => Err(NtkError::JsonParseFailure(e)),
    }
}

/// What `out` prints of a response body, followed by an empty line: nothing
/// for an empty body; for a JSON response, the body indented, or nothing when
/// it is not JSON after all; else the body as it is.
pub open spec fn out_body_text(body: Seq<char>, is_json: bool) -> Option<Seq<char>> {
    if body.len() == 0 {
        None
    } else if is_json {
        match json_pretty_spec(body) {
            Some(p) => Some(p + "\n"@),
            None => None,
        }
    } else {
        Some(body + "\n"@)
    }
}

/// Builds what `out` prints of a response body (see `out_body_text`).
pub fn out_body(body: &str, is_json: bool) -> (r: Option<String>)
    ensures
        match out_body_text(body@, is_json) {
            Some(t) => r matches Some(s) && s@ == t,
            None => r is None,
        },
{
    if body.unicode_len() == 0 {
        return None;
    }
    let mut s = String::new();
    if is_json {
        match json_pretty(body) {
            Some(p) => push_str(&mut s, p.as_str()),
            None => {
                return None;
            },
        }
    } else {
        push_str(&mut s, body);
    }
    push_str(&mut s, "\n");
    Some(s)
}

/// The line for a vendor response body that does not decode as JSON (as the
/// HTTP client words a decoding failure).
pub fn vendor_decode_failure() -> (s: String)
    ensures
        s@ == "Failed to parse JSON: error decoding response body"@,
{
    let mut s = String::new();
    push_str(&mut s, "Failed to parse JSON: error decoding response body");
    s
}

/// The vendor lookup's answer from the body of the second database: from its
/// `company` field (see `vendor_report`), or a line for standard error that
/// the body is not JSON.
pub fn vendor_from_json(body: &str, mac: &str) -> (r: VendorReport)
    ensures
        json_str_field_spec(body@, "company"@) is None ==> (r matches VendorReport::Stderr(s) && s@
            == "Failed to parse JSON: error decoding response body"@),
        json_str_field_spec(body@, "company"@) matches Some(c) ==> match c {
            Some(name) => if name.len() == 0 {
                r matches VendorReport::Stdout(s) && s@ == "Was unable to find a vendor for '"@ + mac@ + "'"@
            } else {
                r matches VendorReport::Stdout(s) && s@ == name
            },
            None => r matches VendorReport::Stderr(s) && s@
                == "'company' field not found or not a string in JSON response."@,
        },
{
    match json_str_field(body, "company") {
        Some(Some(c)) => vendor_report(Some(c.as_str()), mac),
        Some(None) => vendor_report(None, mac),
        None => VendorReport::Stderr(vendor_decode_failure()),
    }
}

} // verus!
