//! Request routing: the one health route, and not found for everything else.

use crate::response::{
    get_health_status, health_body_text, health_response_view, no_cache_directives, not_found,
    not_found_view, HealthResponse, ResponseView, STATUS_NOT_FOUND, STATUS_OK,
    STATUS_SERVICE_UNAVAILABLE,
};
use crate::state::{HealthState, StartupError};
use vstd::prelude::*;

verus! {

pub open spec fn health_method() -> Seq<char> {
    "GET"@
}

pub open spec fn health_path() -> Seq<char> {
    "/health"@
}

/// Whether a request reaches the health route.
pub open spec fn is_health_request(method: Seq<char>, path: Seq<char>) -> bool {
    method == health_method() && path == health_path()
}

/// The response to a request, given whether the database is connected.
pub open spec fn route_view(method: Seq<char>, path: Seq<char>, connected: bool) -> ResponseView {
    if is_health_request(method, path) {
        health_response_view(connected)
    } else {
        not_found_view()
    }
}

/// Answers one request. `path` is the request path without its query.
/// The state is only read: no request changes it or tries to reconnect.
pub fn route<P>(method: &str, path: &str, state: &HealthState<P>) -> (r: HealthResponse)
    ensures
        r@ == route_view(method@, path@, state.connected()),
{
    let method = method.to_owned();
    let path = path.to_owned();
    if method == String::from_str("GET") && path == String::from_str("/health") {
        get_health_status(state)
    } else {
        not_found()
    }
}

/// When the database is connected, every health request gets status 200 and
/// a body whose field is `true`.
pub proof fn lemma_connected_reports_ok<P>(state: HealthState<P>)
    requires
        state is Connected,
    ensures
        route_view(health_method(), health_path(), state.connected()).status == STATUS_OK,
        route_view(health_method(), health_path(), state.connected()).body == health_body_text(
            true,
        ),
{
}

/// When the startup attempt failed, every health request gets status 503 and
/// a body whose field is `false`.
pub proof fn lemma_failed_reports_unavailable<P>(state: HealthState<P>)
    requires
        state is Failed,
    ensures
        route_view(health_method(), health_path(), state.connected()).status
            == STATUS_SERVICE_UNAVAILABLE,
        route_view(health_method(), health_path(), state.connected()).body == health_body_text(
            false,
        ),
{
}

/// Any path other than the health path is not found, whatever the state.
pub proof fn lemma_other_paths_not_found(method: Seq<char>, path: Seq<char>, connected: bool)
    requires
        path != health_path(),
    ensures
        route_view(method, path, connected).status == STATUS_NOT_FOUND,
        route_view(method, path, connected) == route_view(method, path, !connected),
{
}

/// Every health response carries the same cache-control header, whatever the
/// state it was answered from.
pub proof fn lemma_cache_control_uniform(first: bool, second: bool)
    ensures
        route_view(health_method(), health_path(), first).cache_control == Some(
            no_cache_directives(),
        ),
        route_view(health_method(), health_path(), first).cache_control == route_view(
            health_method(),
            health_path(),
            second,
        ).cache_control,
{
}

/// A process started without a connection string still answers the health
/// route, with status 503 and a body whose field is `false`.
pub proof fn lemma_unconfigured_reports_unavailable<P>(state: HealthState<P>)
    requires
        state matches HealthState::Failed(StartupError::MissingConfiguration),
    ensures
        route_view(health_method(), health_path(), state.connected()) == health_response_view(
            false,
        ),
        route_view(health_method(), health_path(), state.connected()).status
            == STATUS_SERVICE_UNAVAILABLE,
{
}

} // verus!
