//! The caller-facing result shape and the tail of the pipeline: mapping a
//! category to its directory, and turning the outcome of the backend call
//! into the one structured value a caller receives.

use vstd::prelude::*;

use crate::backend::{decoded_reply, interpret_backend_reply, is_success_status};
use crate::errors::{error_message, error_message_of, ApiError};
use crate::json::{normalize, parsed_json, raw_wrapped};

verus! {

/// What one request returns to the caller: either a JSON answer or an
/// error message, never both, and always the list of file names whose
/// content was placed in the prompt.
pub struct ApiResult {
    pub answer: Option<serde_json::Value>,
    pub used_files: Vec<String>,
    pub error: Option<String>,
}

/// Exactly one of answer and error is populated.
pub open spec fn api_result_wf(r: ApiResult) -> bool {
    r.answer is Some <==> r.error is None
}

/// The directory that serves a category. The table is small and static:
/// named categories map to their own directory, and anything else -
/// including the default category `invoices` itself - falls back to the
/// invoice directory rather than erroring.
pub open spec fn directory_for(category: Seq<char>) -> Seq<char> {
    if category == "contracts"@ {
        "data/contracts"@
    } else if category == "notes"@ {
        "data/notes"@
    } else {
        "data/invoices"@
    }
}

/// Maps a category name to its storage directory, unknown names to the
/// default invoice directory.
pub fn category_directory(category: &str) -> (r: String)
    ensures
        r@ == directory_for(category@),
{
    let c: String = category.to_owned();
    let contracts: String = "contracts".to_owned();
    let notes: String = "notes".to_owned();
    if c == contracts {
        "data/contracts".to_owned()
    } else if c == notes {
        "data/notes".to_owned()
    } else {
        "data/invoices".to_owned()
    }
}

/// A successful result: the answer and the files it drew on.
pub fn api_success(answer: serde_json::Value, used_files: Vec<String>) -> (r: ApiResult)
    ensures
        api_result_wf(r),
        r.answer matches Some(a) && a == answer,
        r.used_files == used_files,
        r.error is None,
{
    ApiResult { answer: Some(answer), used_files, error: None }
}

/// A failed result: no answer, the rendered message for `e`, and still the
/// files that had been selected and read before the failure.
pub fn api_failure(e: &ApiError, used_files: Vec<String>) -> (r: ApiResult)
    ensures
        api_result_wf(r),
        r.answer is None,
        r.used_files == used_files,
        r.error matches Some(m) && m@ == error_message_of(*e),
{
    ApiResult { answer: None, used_files, error: Some(error_message(e)) }
}

/// How one HTTP exchange with the backend ended: the transport failed, or a
/// status and body came back.
pub enum BackendOutcome {
    Unreachable,
    Reply { status: u16, body: String },
}

/// The normalizer's promise for a payload: the parsed value when the
/// payload is valid JSON, the wrapped raw text otherwise.
pub open spec fn normalized_to(text: Seq<char>, v: serde_json::Value) -> bool {
    match parsed_json(text) {
        Some(p) => v == p,
        None => v == raw_wrapped(text),
    }
}

/// Shapes the final result from whatever the backend call came to. An
/// unreachable backend, a non-success status, and an undecodable body each
/// become their error, with the status and body kept in the message for
/// diagnostics; a decoded payload is normalized into the answer. The files
/// already read stay in the result either way.
pub fn finish_request(used_files: Vec<String>, outcome: BackendOutcome) -> (r: ApiResult)
    ensures
        api_result_wf(r),
        r.used_files == used_files,
        outcome is Unreachable ==> (r.error matches Some(m) && m@ == error_message_of(
            ApiError::BackendUnreachable,
        )),
        outcome matches BackendOutcome::Reply { status, body } ==> {
            &&& !is_success_status(status) ==> (r.error matches Some(m) && m@ == error_message_of(
                ApiError::BackendError { status, body },
            ))
            &&& is_success_status(status) && decoded_reply(body@) is None ==> (r.error
                matches Some(m) && m@ == error_message_of(ApiError::MalformedBackendResponse))
            &&& is_success_status(status) ==> (decoded_reply(body@) matches Some(d) ==> (r.answer
                matches Some(a) && normalized_to(d.0, a)))
        },
{
    match outcome {
        BackendOutcome::Unreachable => api_failure(&ApiError::BackendUnreachable, used_files),
        BackendOutcome::Reply { status, body } => {
            match interpret_backend_reply(status, body) {
                Ok(reply) => {
                    let answer = normalize(reply.response.as_str());
                    api_success(answer, used_files)
                },
                Err(e) => api_failure(&e, used_files),
            }
        },
    }
}

} // verus!
