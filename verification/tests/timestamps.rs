use candidate_api::http::respond;
use candidate_api::rfc3339::is_rfc3339_micros_utc;

const PREFIX: &str = "{\"status\":\"ok\",\"message\":\"working\",\"timestamp\":\"";
const SUFFIX: &str = "\"}";

fn extract_timestamp(body: &str) -> String {
    assert!(body.starts_with(PREFIX), "unexpected body shape: {body}");
    assert!(body.ends_with(SUFFIX), "unexpected body shape: {body}");
    body[PREFIX.len()..body.len() - SUFFIX.len()].to_string()
}

#[test]
fn checker_accepts_the_emitted_shape() {
    assert!(is_rfc3339_micros_utc("2024-01-26T18:30:09.453829Z"));
    assert!(is_rfc3339_micros_utc("2024-02-29T00:00:00.000000Z"));
    assert!(is_rfc3339_micros_utc("2000-02-29T23:59:59.999999Z"));
    assert!(is_rfc3339_micros_utc("2016-12-31T23:59:60.000000Z"));
}

#[test]
fn checker_rejects_other_shapes() {
    assert!(!is_rfc3339_micros_utc(""));
    assert!(!is_rfc3339_micros_utc("2024-01-26T18:30:09Z"));
    assert!(!is_rfc3339_micros_utc("2024-01-26T18:30:09.453829+00:00"));
    assert!(!is_rfc3339_micros_utc("2024-01-26 18:30:09.453829Z"));
    assert!(!is_rfc3339_micros_utc("2024-13-01T00:00:00.000000Z"));
    assert!(!is_rfc3339_micros_utc("2024-00-01T00:00:00.000000Z"));
    assert!(!is_rfc3339_micros_utc("2024-01-00T00:00:00.000000Z"));
    assert!(!is_rfc3339_micros_utc("2024-01-32T00:00:00.000000Z"));
    assert!(!is_rfc3339_micros_utc("2023-02-29T00:00:00.000000Z"));
    assert!(!is_rfc3339_micros_utc("1900-02-29T00:00:00.000000Z"));
    assert!(!is_rfc3339_micros_utc("2024-04-31T00:00:00.000000Z"));
    assert!(!is_rfc3339_micros_utc("2024-01-26T24:00:00.000000Z"));
    assert!(!is_rfc3339_micros_utc("2024-01-26T18:60:09.453829Z"));
    assert!(!is_rfc3339_micros_utc("2024-01-26T18:30:61.453829Z"));
    assert!(!is_rfc3339_micros_utc("2024-01-26T18:30:09.45382aZ"));
    assert!(!is_rfc3339_micros_utc("x024-01-26T18:30:09.453829Z"));
}

#[test]
fn live_timestamp_matches_the_shape() {
    let r = respond("GET", "/");
    assert_eq!(r.status, 200);
    let ts = extract_timestamp(&r.body.expect("status body"));
    assert!(is_rfc3339_micros_utc(&ts), "timestamp not in shape: {ts}");
}

#[test]
fn consecutive_calls_nondecreasing_and_constant_elsewhere() {
    let r1 = respond("GET", "/");
    let r2 = respond("GET", "/");
    assert_eq!(r1.status, r2.status);
    let b1 = r1.body.expect("status body");
    let b2 = r2.body.expect("status body");
    let t1 = extract_timestamp(&b1);
    let t2 = extract_timestamp(&b2);
    // Fixed-width digits, so textual order is chronological order.
    assert!(t1 <= t2, "clock went backwards: {t1} then {t2}");
    // Everything outside the timestamp is identical between the two calls.
    assert_eq!(b1.replace(&t1, "<ts>"), b2.replace(&t2, "<ts>"));
}

#[test]
fn error_timestamp_matches_the_shape() {
    let r = candidate_api::http::internal_error_now();
    assert_eq!(r.status, 500);
    let body = r.body.expect("error body");
    let prefix = "{\"status\":500,\"timestamp\":\"";
    assert!(body.starts_with(prefix));
    let rest = &body[prefix.len()..];
    let end = rest.find('"').expect("closing quote");
    assert!(is_rfc3339_micros_utc(&rest[..end]));
    assert_eq!(
        &rest[end..],
        "\",\"message\":\"Internal server error\",\
         \"debug_message\":\"Internal server error try after some time\"}"
    );
}
