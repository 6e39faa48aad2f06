//! The response payloads of the service: the status message, the internal
//! error record, and the fixed candidate list, each with a verified JSON
//! rendering whose exact text is stated in spec functions.

use vstd::prelude::*;
use vstd::string::StrSliceExecFns;
use vstd::string::StringExecFns;
use crate::json::{
    append_i32_dec, append_json_string, dec_int, json_string, json_string_array,
    string_array_to_json,
};
use crate::text::push_char;

verus! {

/// The healthy status payload: rendered as
/// `{"status":...,"message":...,"timestamp":...}`.
pub struct Message {
    pub status: String,
    pub message: String,
    pub timestamp: String,
}

/// The JSON object text for a status message with the given field values.
pub open spec fn message_json(status: Seq<char>, message: Seq<char>, timestamp: Seq<char>) -> Seq<
    char,
> {
    "{\"status\":"@ + json_string(status) + ",\"message\":"@ + json_string(message)
        + ",\"timestamp\":"@ + json_string(timestamp) + seq!['}']
}

impl Message {
    /// The one status message the service ever reports: `ok` / `working`,
    /// stamped with the given instant.
    pub fn status_ok(timestamp: String) -> (m: Message)
        ensures
            m.status@ == "ok"@,
            m.message@ == "working"@,
            m.timestamp@ == timestamp@,
    {
        Message { status: "ok".to_owned(), message: "working".to_owned(), timestamp }
    }

    /// Renders the record as its JSON object, fields in declaration order.
    pub fn to_json(&self) -> (r: String)
        ensures
            r@ == message_json(self.status@, self.message@, self.timestamp@),
    {
        let mut out = String::new();
        out.append("{\"status\":");
        append_json_string(&mut out, self.status.as_str());
        out.append(",\"message\":");
        append_json_string(&mut out, self.message.as_str());
        out.append(",\"timestamp\":");
        append_json_string(&mut out, self.timestamp.as_str());
        push_char(&mut out, '}');
        proof {
            assert(out@ =~= message_json(self.status@, self.message@, self.timestamp@));
        }
        out
    }
}

/// The payload written for any failed handler: rendered as
/// `{"status":...,"timestamp":...,"message":...,"debug_message":...}`.
pub struct ApiError {
    pub status: i32,
    pub timestamp: String,
    pub message: String,
    pub debug_message: String,
}

/// The JSON object text for an error record with the given field values.
pub open spec fn error_json(
    status: int,
    timestamp: Seq<char>,
    message: Seq<char>,
    debug_message: Seq<char>,
) -> Seq<char> {
    "{\"status\":"@ + dec_int(status) + ",\"timestamp\":"@ + json_string(timestamp)
        + ",\"message\":"@ + json_string(message) + ",\"debug_message\":"@ + json_string(
        debug_message,
    ) + seq!['}']
}

impl ApiError {
    /// The one error the service reports: an internal server error with the
    /// fixed user-facing and diagnostic texts, stamped with the given instant.
    pub fn internal(timestamp: String) -> (e: ApiError)
        ensures
            e.status == 500i32,
            e.timestamp@ == timestamp@,
            e.message@ == "Internal server error"@,
            e.debug_message@ == "Internal server error try after some time"@,
    {
        ApiError {
            status: 500,
            timestamp,
            message: "Internal server error".to_owned(),
            debug_message: "Internal server error try after some time".to_owned(),
        }
    }

    /// Renders the record as its JSON object, fields in declaration order;
    /// the status stands as a bare number.
    pub fn to_json(&self) -> (r: String)
        ensures
            r@ == error_json(self.status as int, self.timestamp@, self.message@,
                self.debug_message@),
    {
        let mut out = String::new();
        out.append("{\"status\":");
        append_i32_dec(&mut out, self.status);
        out.append(",\"timestamp\":");
        append_json_string(&mut out, self.timestamp.as_str());
        out.append(",\"message\":");
        append_json_string(&mut out, self.message.as_str());
        out.append(",\"debug_message\":");
        append_json_string(&mut out, self.debug_message.as_str());
        push_char(&mut out, '}');
        proof {
            assert(out@ =~= error_json(self.status as int, self.timestamp@, self.message@,
                self.debug_message@));
        }
        out
    }
}

/// The fixed candidate names, in serving order.
pub open spec fn candidates_view() -> Seq<Seq<char>> {
    seq!["Alice"@, "Bob"@, "Charlie"@, "David"@]
}

/// The body of the candidates endpoint: the fixed names as a JSON array.
pub open spec fn candidates_body() -> Seq<char> {
    json_string_array(candidates_view())
}

/// Builds the fixed candidate list.
pub fn candidates() -> (v: Vec<String>)
    ensures
        v@.map_values(|s: String| s@) == candidates_view(),
{
    let mut v: Vec<String> = Vec::new();
    v.push("Alice".to_owned());
    v.push("Bob".to_owned());
    v.push("Charlie".to_owned());
    v.push("David".to_owned());
    proof {
        assert(v@.map_values(|s: String| s@) =~= candidates_view());
    }
    v
}

/// Renders the candidate list as its JSON array body.
pub fn candidates_json() -> (r: String)
    ensures
        r@ == candidates_body(),
{
    let v = candidates();
    string_array_to_json(&v)
}

} // verus!
