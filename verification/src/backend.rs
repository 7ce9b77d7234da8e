//! The generation client's decision logic: how the transport outcome of the
//! one HTTP call per query is read. The call itself is I/O and lives with
//! the caller; everything that can be decided from the status and the body
//! is decided here.

use vstd::prelude::*;

use crate::errors::ApiError;

verus! {

/// A decoded reply from the generation backend: the text payload and the
/// completion flag.
#[derive(Debug)]
pub struct OllamaResponse {
    pub response: String,
    pub done: bool,
}

/// What the backend's reply body decodes to: the `response` text and `done`
/// flag of a body that is a JSON object carrying a string under `response`
/// and a boolean under `done`, nothing otherwise. Decoding depends on the
/// body alone.
pub uninterp spec fn decoded_reply(s: Seq<char>) -> Option<(Seq<char>, bool)>;

/// Relies on `serde_json::from_str::<Value>` and `serde_json::Value`'s
/// `get`, `as_str` and `as_bool`: reads the `response` string and `done`
/// boolean out of a reply body, `None` when the body does not parse or
/// either field is missing or of the wrong shape.
#[verifier::external_body]
fn decode_generation_reply(body: &str) -> (r: Option<OllamaResponse>)
    ensures
        r is Some <==> decoded_reply(body@) is Some,
        r matches Some(o) ==> decoded_reply(body@) matches Some(d) && o.response@ == d.0
            && o.done == d.1,
{
    let parsed: serde_json::Value = match serde_json::from_str(body) {
        Ok(v) => v,
        Err(_) => return None,
    };
    let response = match parsed.get("response").and_then(|v| v.as_str()) {
        Some(s) => s.to_string(),
        None => return None,
    };
    let done = match parsed.get("done").and_then(|v| v.as_bool()) {
        Some(b) => b,
        None => return None,
    };
    Some(OllamaResponse { response, done })
}

/// A success in the HTTP sense: a status in the 2xx range.
pub open spec fn is_success_status(status: u16) -> bool {
    200 <= status < 300
}

/// Reads the backend's HTTP reply. A non-success status is a backend error
/// carrying the status and body for diagnostics; a success whose body does
/// not decode is a malformed response; a success that decodes yields the
/// payload. The `done` flag is read but not required to be true:
/// non-streaming mode completes in one message.
pub fn interpret_backend_reply(status: u16, body: String) -> (r: Result<OllamaResponse, ApiError>)
    ensures
        !is_success_status(status) ==> (r matches Err(e) && e == (ApiError::BackendError {
            status,
            body,
        })),
        is_success_status(status) && decoded_reply(body@) is None ==> (r matches Err(e) && e
            == ApiError::MalformedBackendResponse),
        is_success_status(status) ==> (decoded_reply(body@) matches Some(d) ==> (r matches Ok(o)
            && o.response@ == d.0 && o.done == d.1)),
{
    if status < 200 || status >= 300 {
        Err(ApiError::BackendError { status, body })
    } else {
        match decode_generation_reply(body.as_str()) {
            Some(reply) => Ok(reply),
            None => Err(ApiError::MalformedBackendResponse),
        }
    }
}

} // verus!
