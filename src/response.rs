//! The responses the service sends, and their models.

use crate::state::HealthState;
use vstd::prelude::*;

verus! {

pub const STATUS_OK: u16 = 200;

pub const STATUS_NOT_FOUND: u16 = 404;

pub const STATUS_SERVICE_UNAVAILABLE: u16 = 503;

/// An HTTP response, with the two headers the service may set.
pub struct HealthResponse {
    pub status: u16,
    pub content_type: Option<String>,
    pub cache_control: Option<String>,
    pub body: String,
}

/// A response with its text seen as character sequences.
pub struct ResponseView {
    pub status: u16,
    pub content_type: Option<Seq<char>>,
    pub cache_control: Option<Seq<char>>,
    pub body: Seq<char>,
}

pub open spec fn text_option(o: Option<String>) -> Option<Seq<char>> {
    match o {
        Some(s) => Some(s@),
        None => None,
    }
}

impl View for HealthResponse {
    type V = ResponseView;

    open spec fn view(&self) -> ResponseView {
        ResponseView {
            status: self.status,
            content_type: text_option(self.content_type),
            cache_control: text_option(self.cache_control),
            body: self.body@,
        }
    }
}

/// A boolean as a JSON literal.
pub open spec fn json_bool_text(b: bool) -> Seq<char> {
    if b {
        seq!['t', 'r', 'u', 'e']
    } else {
        seq!['f', 'a', 'l', 's', 'e']
    }
}

/// The health body: a JSON object whose one field says whether the database
/// is connected.
pub open spec fn health_body_text(connected: bool) -> Seq<char> {
    "{\"database_connected\":"@ + json_bool_text(connected) + "}"@
}

pub open spec fn json_content_type() -> Seq<char> {
    "application/json"@
}

/// Health results must never be served from a cache.
pub open spec fn no_cache_directives() -> Seq<char> {
    "no-cache, no-store, must-revalidate"@
}

/// The answer to `GET /health`: ok when connected, unavailable otherwise.
pub open spec fn health_response_view(connected: bool) -> ResponseView {
    ResponseView {
        status: if connected {
            STATUS_OK
        } else {
            STATUS_SERVICE_UNAVAILABLE
        },
        content_type: Some(json_content_type()),
        cache_control: Some(no_cache_directives()),
        body: health_body_text(connected),
    }
}

/// The answer to a request that matches no route: no headers, no body.
pub open spec fn not_found_view() -> ResponseView {
    ResponseView {
        status: STATUS_NOT_FOUND,
        content_type: None,
        cache_control: None,
        body: Seq::empty(),
    }
}

/// Relies on serde_json's `Display` for `Value`, whose compact writer puts a
/// `Value::Bool` down as the literal `true` or `false`.
#[verifier::external_body]
fn json_bool(b: bool) -> (r: String)
    ensures
        r@ == json_bool_text(b),
{
    serde_json::Value::Bool(b).to_string()
}

/// The JSON body of a health response.
pub fn health_body(connected: bool) -> (r: String)
    ensures
        r@ == health_body_text(connected),
{
    let mut body = String::from_str("{\"database_connected\":");
    let flag = json_bool(connected);
    body.append(flag.as_str());
    body.append("}");
    body
}

/// Answers `GET /health` from the state captured at startup.
pub fn get_health_status<P>(state: &HealthState<P>) -> (r: HealthResponse)
    ensures
        r@ == health_response_view(state.connected()),
{
    let connected = state.is_connected();
    let status = if connected {
        STATUS_OK
    } else {
        STATUS_SERVICE_UNAVAILABLE
    };
    HealthResponse {
        status,
        content_type: Some(String::from_str("application/json")),
        cache_control: Some(String::from_str("no-cache, no-store, must-revalidate")),
        body: health_body(connected),
    }
}

/// The response to an unmatched request.
pub fn not_found() -> (r: HealthResponse)
    ensures
        r@ == not_found_view(),
{
    HealthResponse {
        status: STATUS_NOT_FOUND,
        content_type: None,
        cache_control: None,
        body: String::new(),
    }
}

} // verus!
