use candidate_api::http::{handle_request, internal_error_response, respond, HttpResponse};

const TS: &str = "2024-01-26T18:30:09.453829Z";

#[test]
fn status_route_exact_body() {
    let r: HttpResponse = handle_request("GET", "/", TS);
    assert_eq!(r.status, 200);
    assert_eq!(
        r.body.as_deref(),
        Some("{\"status\":\"ok\",\"message\":\"working\",\"timestamp\":\"2024-01-26T18:30:09.453829Z\"}")
    );
}

#[test]
fn candidates_route_exact_body() {
    let r = handle_request("GET", "/candidates", TS);
    assert_eq!(r.status, 200);
    assert_eq!(r.body.as_deref(), Some("[\"Alice\",\"Bob\",\"Charlie\",\"David\"]"));
}

#[test]
fn unknown_route_has_no_body() {
    let r = handle_request("GET", "/missing", TS);
    assert_eq!(r.status, 404);
    assert!(r.body.is_none());
}

#[test]
fn unknown_method_has_no_body() {
    let r = handle_request("POST", "/", TS);
    assert_eq!(r.status, 404);
    assert!(r.body.is_none());

    let r = handle_request("POST", "/candidates", TS);
    assert_eq!(r.status, 404);
    assert!(r.body.is_none());
}

#[test]
fn routing_is_exact() {
    // Method matching is case-sensitive, paths match whole.
    assert_eq!(handle_request("get", "/", TS).status, 404);
    assert_eq!(handle_request("get", "/candidates", TS).status, 404);
    assert_eq!(handle_request("GET", "/candidates/", TS).status, 404);
    assert_eq!(handle_request("GET", "", TS).status, 404);
    assert_eq!(handle_request("GET", "/candidate", TS).status, 404);
}

#[test]
fn internal_error_exact_body() {
    let r = internal_error_response(TS);
    assert_eq!(r.status, 500);
    assert_eq!(
        r.body.as_deref(),
        Some(
            "{\"status\":500,\"timestamp\":\"2024-01-26T18:30:09.453829Z\",\
             \"message\":\"Internal server error\",\
             \"debug_message\":\"Internal server error try after some time\"}"
        )
    );
}

#[test]
fn many_interleaved_requests_all_well_shaped() {
    for _ in 0..25 {
        let s = respond("GET", "/");
        assert_eq!(s.status, 200);
        let body = s.body.expect("status body");
        assert!(body.starts_with("{\"status\":\"ok\",\"message\":\"working\",\"timestamp\":\""));
        assert!(body.ends_with("\"}"));

        let c = respond("GET", "/candidates");
        assert_eq!(c.status, 200);
        assert_eq!(c.body.as_deref(), Some("[\"Alice\",\"Bob\",\"Charlie\",\"David\"]"));

        let n = respond("GET", "/nowhere");
        assert_eq!(n.status, 404);
        assert!(n.body.is_none());
    }
}
