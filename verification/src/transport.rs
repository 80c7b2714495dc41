//! The transport's verdict on an answer: pass it on, or say how the service
//! refused. Nothing is retried here.

use vstd::prelude::*;
use vstd::string::*;
use crate::error::{ApiError, KaggleError};
use crate::json::{decoded_json, document_view, text_view, JsonDocument, ObjectView};
use crate::text::{parse_u64, parse_u64_spec};

verus! {

/// An answer of the service as plain values: the status code, the value of
/// the `Retry-After` header where the answer has one that is text, and the body.
#[derive(Debug, Clone, PartialEq, Eq)]
pub struct Response {
    pub status: u16,
    pub retry_after: Option<String>,
    pub body: Vec<u8>,
}

/// Whether the status is one of 200 to 299.
pub open spec fn is_success(status: u16) -> bool {
    200 <= status <= 299
}

/// The refusal that a status stands for, `None` for success.
pub open spec fn classify(status: u16, retry_after: Option<Seq<char>>) -> Option<ApiError> {
    if is_success(status) {
        None
    } else if status == 401 {
        Some(ApiError::Unauthorized)
    } else if status == 429 {
        Some(
            ApiError::RateLimited(
                match retry_after {
                    Some(text) => parse_u64_spec(text),
                    None => None,
                },
            ),
        )
    } else {
        Some(ApiError::Other(status))
    }
}

/// Passes a successful answer on unchanged, and classifies any other.
pub fn execute(response: Response) -> (r: Result<Response, ApiError>)
    ensures
        match classify(response.status, text_view(response.retry_after)) {
            None => r == Ok::<Response, ApiError>(response),
            Some(refusal) => r == Err::<Response, ApiError>(refusal),
        },
{
    if 200 <= response.status && response.status <= 299 {
        Ok(response)
    } else if response.status == 401 {
        Err(ApiError::Unauthorized)
    } else if response.status == 429 {
        let seconds = match &response.retry_after {
            Some(text) => parse_u64(text.as_str()),
            None => None,
        };
        Err(ApiError::RateLimited(seconds))
    } else {
        Err(ApiError::Other(response.status))
    }
}

/// The document that an answer carries: the refusal of the service, `Decode`
/// for a body that is not JSON, else the object, or `None` for JSON of
/// another kind.
pub open spec fn document_spec(response: Response) -> Result<Option<ObjectView>, KaggleError> {
    match classify(response.status, text_view(response.retry_after)) {
        Some(refusal) => Err(KaggleError::Api(refusal)),
        None => match decoded_json(response.body@) {
            None => Err(KaggleError::Decode),
            Some(document) => Ok(document),
        },
    }
}

/// Classifies the answer as `execute` does, then decodes the body of a
/// successful one. A body that is not JSON is a `Decode` error, never an
/// `Api` one.
pub fn execute_json(response: Response) -> (r: Result<JsonDocument, KaggleError>)
    ensures
        document_view(r) == document_spec(response),
{
    match execute(response) {
        Ok(passed) => JsonDocument::parse(passed.body.as_slice()),
        Err(refusal) => Err(KaggleError::Api(refusal)),
    }
}

} // verus!
