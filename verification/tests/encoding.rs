use candidate_api::payload::{candidates, candidates_json, ApiError, Message};

#[test]
fn message_json_escapes_quote_backslash_and_controls() {
    let m = Message {
        status: "a\"b\\c\u{1}".to_string(),
        message: "line\nbreak".to_string(),
        timestamp: "t".to_string(),
    };
    assert_eq!(
        m.to_json(),
        "{\"status\":\"a\\\"b\\\\c\\u0001\",\"message\":\"line\\u000abreak\",\"timestamp\":\"t\"}"
    );
}

#[test]
fn message_json_escape_boundaries() {
    let m = Message {
        status: "\u{1f}".to_string(),
        message: "\u{20}".to_string(),
        timestamp: String::new(),
    };
    assert_eq!(
        m.to_json(),
        "{\"status\":\"\\u001f\",\"message\":\" \",\"timestamp\":\"\"}"
    );
}

#[test]
fn message_status_ok_fields() {
    let m = Message::status_ok("now".to_string());
    assert_eq!(m.status, "ok");
    assert_eq!(m.message, "working");
    assert_eq!(m.timestamp, "now");
}

#[test]
fn api_error_internal_fields() {
    let e = ApiError::internal("now".to_string());
    assert_eq!(e.status, 500);
    assert_eq!(e.timestamp, "now");
    assert_eq!(e.message, "Internal server error");
    assert_eq!(e.debug_message, "Internal server error try after some time");
}

#[test]
fn api_error_json_renders_numbers() {
    let e = ApiError {
        status: -12,
        timestamp: "t".to_string(),
        message: "m".to_string(),
        debug_message: "d".to_string(),
    };
    assert_eq!(
        e.to_json(),
        "{\"status\":-12,\"timestamp\":\"t\",\"message\":\"m\",\"debug_message\":\"d\"}"
    );

    let e = ApiError { status: 0, ..e };
    assert_eq!(
        e.to_json(),
        "{\"status\":0,\"timestamp\":\"t\",\"message\":\"m\",\"debug_message\":\"d\"}"
    );

    let e = ApiError { status: i32::MIN, ..e };
    assert_eq!(
        e.to_json(),
        "{\"status\":-2147483648,\"timestamp\":\"t\",\"message\":\"m\",\"debug_message\":\"d\"}"
    );

    let e = ApiError { status: i32::MAX, ..e };
    assert_eq!(
        e.to_json(),
        "{\"status\":2147483647,\"timestamp\":\"t\",\"message\":\"m\",\"debug_message\":\"d\"}"
    );
}

#[test]
fn candidate_list_order_preserved() {
    let v = candidates();
    assert_eq!(v, vec!["Alice", "Bob", "Charlie", "David"]);
    assert_eq!(candidates_json(), "[\"Alice\",\"Bob\",\"Charlie\",\"David\"]");
}
