//! Routing and response assembly: which handler a request line selects, and
//! the exact status code and JSON body each route answers with.

use vstd::prelude::*;
use crate::json::json_string;
use crate::payload::{
    candidates_body, candidates_json, error_json, message_json, ApiError, Message,
};
use crate::text::str_eq;

verus! {

/// Which handler a request line selects.
#[derive(Clone, Copy, Debug, PartialEq, Eq, Structural)]
pub enum Route {
    Status,
    Candidates,
    NotFound,
}

/// The routing table: `GET /` answers the status message, `GET /candidates`
/// the candidate list, and everything else falls through to not-found.
pub open spec fn spec_route(method: Seq<char>, path: Seq<char>) -> Route {
    if method == "GET"@ && path == "/"@ {
        Route::Status
    } else if method == "GET"@ && path == "/candidates"@ {
        Route::Candidates
    } else {
        Route::NotFound
    }
}

/// Dispatches a request line to its route.
pub fn route_of(method: &str, path: &str) -> (r: Route)
    ensures
        r == spec_route(method@, path@),
{
    if str_eq(method, "GET") {
        if str_eq(path, "/") {
            Route::Status
        } else if str_eq(path, "/candidates") {
            Route::Candidates
        } else {
            Route::NotFound
        }
    } else {
        Route::NotFound
    }
}

/// What the service writes back: a status code and, on the handled routes,
/// a JSON body (content type `application/json`).
pub struct HttpResponse {
    pub status: u16,
    pub body: Option<String>,
}

/// The status code each route answers with.
pub open spec fn status_of_route(r: Route) -> int {
    match r {
        Route::Status => 200,
        Route::Candidates => 200,
        Route::NotFound => 404,
    }
}

/// The status endpoint's body for the given instant.
pub open spec fn status_body(timestamp: Seq<char>) -> Seq<char> {
    message_json("ok"@, "working"@, timestamp)
}

/// The internal-error body for the given instant.
pub open spec fn internal_error_body(timestamp: Seq<char>) -> Seq<char> {
    error_json(500, timestamp, "Internal server error"@,
        "Internal server error try after some time"@)
}

/// The body each route answers with, given the instant of handling: the
/// status message, the fixed candidate array, or no body at all.
pub open spec fn body_of_route(r: Route, timestamp: Seq<char>) -> Option<Seq<char>> {
    match r {
        Route::Status => Some(status_body(timestamp)),
        Route::Candidates => Some(candidates_body()),
        Route::NotFound => None,
    }
}

/// Handles one request, stamped with the given instant: routes it and
/// builds exactly the status code and body of the routing table.
pub fn handle_request(method: &str, path: &str, timestamp: &str) -> (resp: HttpResponse)
    ensures
        resp.status as int == status_of_route(spec_route(method@, path@)),
        match body_of_route(spec_route(method@, path@), timestamp@) {
            Some(b) => resp.body matches Some(s) && s@ == b,
            None => resp.body is None,
        },
{
    match route_of(method, path) {
        Route::Status => {
            let m = Message::status_ok(timestamp.to_owned());
            HttpResponse { status: 200, body: Some(m.to_json()) }
        },
        Route::Candidates => HttpResponse { status: 200, body: Some(candidates_json()) },
        Route::NotFound => HttpResponse { status: 404, body: None },
    }
}

/// The response any failed handler is rewritten into, stamped with the
/// given instant: HTTP 500 with the fixed internal-error body.
pub fn internal_error_response(timestamp: &str) -> (resp: HttpResponse)
    ensures
        resp.status == 500u16,
        resp.body matches Some(s) && s@ == internal_error_body(timestamp@),
{
    let e = ApiError::internal(timestamp.to_owned());
    HttpResponse { status: 500, body: Some(e.to_json()) }
}

/// Relies on chrono's `Utc::now` and `DateTime::to_rfc3339_opts` with
/// microsecond precision and `use_z`: the current UTC instant as text. The
/// value depends on the system clock, so nothing is assumed of it; callers
/// state what holds whatever text came back.
#[verifier::external_body]
fn now_rfc3339_micros() -> String {
    chrono::Utc::now().to_rfc3339_opts(chrono::SecondsFormat::Micros, true)
}

/// Handles one request at the current instant. The status code is pinned by
/// the route; the body is the route's body for whatever instant the clock
/// gave.
pub fn respond(method: &str, path: &str) -> (resp: HttpResponse)
    ensures
        resp.status as int == status_of_route(spec_route(method@, path@)),
        spec_route(method@, path@) is Status ==> (resp.body matches Some(s)
            && (exists|ts: Seq<char>| s@ == status_body(ts))),
        spec_route(method@, path@) is Candidates ==> (resp.body matches Some(s) && s@
            == candidates_body()),
        spec_route(method@, path@) is NotFound ==> resp.body is None,
{
    let now = now_rfc3339_micros();
    let resp = handle_request(method, path, now.as_str());
    proof {
        if spec_route(method@, path@) is Status {
            assert(resp.body matches Some(s) && s@ == status_body(now@));
        }
    }
    resp
}

/// The internal-error response at the current instant: HTTP 500 with the
/// fixed body for whatever instant the clock gave.
pub fn internal_error_now() -> (resp: HttpResponse)
    ensures
        resp.status == 500u16,
        resp.body matches Some(s) && (exists|ts: Seq<char>| s@ == internal_error_body(ts)),
{
    let now = now_rfc3339_micros();
    let resp = internal_error_response(now.as_str());
    proof {
        assert(resp.body matches Some(s) && s@ == internal_error_body(now@));
    }
    resp
}

/// The status message the service builds at the current instant: the fields
/// other than the timestamp are the fixed texts.
pub fn status_message_now() -> (m: Message)
    ensures
        m.status@ == "ok"@,
        m.message@ == "working"@,
{
    let now = now_rfc3339_micros();
    Message::status_ok(now)
}

/// The fixed text standing before the timestamp in every status body.
pub open spec fn status_prefix() -> Seq<char> {
    "{\"status\":\"ok\",\"message\":\"working\",\"timestamp\":"@
}

/// Status responses are constant outside the timestamp: for any two
/// instants the bodies are the same fixed text around the quoted timestamp,
/// so fields other than `timestamp` never differ between two calls.
pub proof fn lemma_status_constant_outside_timestamp(t1: Seq<char>, t2: Seq<char>)
    ensures
        status_body(t1) == status_prefix() + json_string(t1) + seq!['}'],
        status_body(t2) == status_prefix() + json_string(t2) + seq!['}'],
{
    lemma_status_body_shape(t1);
    lemma_status_body_shape(t2);
}

proof fn lemma_status_body_shape(ts: Seq<char>)
    ensures
        status_body(ts) == status_prefix() + json_string(ts) + seq!['}'],
{
    reveal_strlit("{\"status\":\"ok\",\"message\":\"working\",\"timestamp\":");
    reveal_strlit("{\"status\":");
    reveal_strlit(",\"message\":");
    reveal_strlit(",\"timestamp\":");
    reveal_strlit("ok");
    reveal_strlit("working");
    assert(crate::json::is_plain_text("ok"@));
    assert(crate::json::is_plain_text("working"@));
    crate::json::lemma_escape_plain("ok"@);
    crate::json::lemma_escape_plain("working"@);
    assert(status_body(ts) =~= status_prefix() + json_string(ts) + seq!['}']);
}

/// For a timestamp in the service's RFC 3339 shape, escaping is the
/// identity, so the body holds the timestamp verbatim between quotes.
pub proof fn lemma_status_body_verbatim(ts: Seq<char>)
    requires
        crate::rfc3339::rfc3339_micros_utc(ts),
    ensures
        status_body(ts) == status_prefix() + seq!['"'] + ts + seq!['"'] + seq!['}'],
{
    crate::rfc3339::lemma_rfc3339_is_plain(ts);
    crate::json::lemma_escape_plain(ts);
    lemma_status_body_shape(ts);
    assert(status_prefix() + json_string(ts) + seq!['}'] =~= status_prefix() + seq!['"'] + ts
        + seq!['"'] + seq!['}']);
}

/// Each response is a function of its own request line and instant alone:
/// requests with the same method, path and timestamp are answered with the
/// same status and body, so concurrent requests cannot influence one
/// another through the service.
pub proof fn lemma_responses_independent(
    m1: Seq<char>,
    p1: Seq<char>,
    t1: Seq<char>,
    m2: Seq<char>,
    p2: Seq<char>,
    t2: Seq<char>,
)
    requires
        m1 == m2,
        p1 == p2,
        t1 == t2,
    ensures
        status_of_route(spec_route(m1, p1)) == status_of_route(spec_route(m2, p2)),
        body_of_route(spec_route(m1, p1), t1) == body_of_route(spec_route(m2, p2), t2),
{
}

/// The candidate body is exactly the fixed array text, order preserved.
pub proof fn lemma_candidates_body_literal()
    ensures
        candidates_body() == "[\"Alice\",\"Bob\",\"Charlie\",\"David\"]"@,
{
    reveal_strlit("[\"Alice\",\"Bob\",\"Charlie\",\"David\"]");
    reveal_strlit("Alice");
    reveal_strlit("Bob");
    reveal_strlit("Charlie");
    reveal_strlit("David");
    assert(crate::json::is_plain_text("Alice"@));
    assert(crate::json::is_plain_text("Bob"@));
    assert(crate::json::is_plain_text("Charlie"@));
    assert(crate::json::is_plain_text("David"@));
    crate::json::lemma_escape_plain("Alice"@);
    crate::json::lemma_escape_plain("Bob"@);
    crate::json::lemma_escape_plain("Charlie"@);
    crate::json::lemma_escape_plain("David"@);
    reveal_with_fuel(crate::json::join_json_strings, 5);
    assert(candidates_body() =~= "[\"Alice\",\"Bob\",\"Charlie\",\"David\"]"@);
}

} // verus!
