//! Calls to the services of model providers: what is sent to say who is
//! calling, and how a failed call is reported to the host.
//!
//! The request itself is made elsewhere. Here are the rules that surround
//! it.

use crate::endpoint::{decimal, decimal_string};
use crate::errors::{failure_message, missing_message, PgError};
use crate::scalar::Scalar;
use vstd::prelude::*;
use vstd::string::StringExecFns;

verus! {

/// The value of the authorization header for a key.
pub open spec fn bearer_of(key: Seq<char>) -> Seq<char> {
    "Bearer "@ + key
}

/// Makes the value of the authorization header for `key`.
pub fn bearer(key: &str) -> (value: String)
    ensures
        value@ == bearer_of(key@),
{
    String::from_str("Bearer ").concat(key)
}

/// What the body of an error response says. Providers use three shapes:
/// an object under `error` with a text under `message`, a text under
/// `detail`, or a text under `error`. Each field holds the text of its
/// shape if the body has that shape.
#[derive(Debug, PartialEq, Eq)]
pub struct ErrorBody {
    pub message: Option<String>,
    pub detail: Option<String>,
    pub error: Option<String>,
}

/// What is said where a response says nothing.
pub open spec fn no_details() -> Seq<char> {
    "no further details"@
}

/// The details that a response gives of its error: the text of the first
/// shape that the body has, in the order message, detail, error; and
/// `no_details` for a body of no known shape, or no body.
pub open spec fn detail_of(body: Option<ErrorBody>) -> Seq<char> {
    match body {
        None => no_details(),
        Some(ErrorBody { message: Some(text), .. }) => text@,
        Some(ErrorBody { message: None, detail: Some(text), .. }) => text@,
        Some(ErrorBody { message: None, detail: None, error: Some(text) }) => text@,
        Some(ErrorBody { message: None, detail: None, error: None }) => no_details(),
    }
}

/// Picks the details that a response gives of its error.
pub fn error_detail(body: Option<ErrorBody>) -> (detail: String)
    ensures
        detail@ == detail_of(body),
{
    match body {
        None => String::from_str("no further details"),
        Some(body) => match body.message {
            Some(text) => text,
            None => match body.detail {
                Some(text) => text,
                None => match body.error {
                    Some(text) => text,
                    None => String::from_str("no further details"),
                },
            },
        },
    }
}

/// Why a call gave no value.
#[derive(Debug, PartialEq, Eq)]
pub enum ApiFailure {
    /// The service was not reached.
    Transport,
    /// The service answered with a status that is no success, and perhaps a
    /// body that says why.
    Status { code: u16, body: Option<ErrorBody> },
    /// The service answered, but not with JSON; this is the parser's
    /// complaint.
    Unparsable(String),
}

impl ApiFailure {
    /// The message with which the host reports the failure.
    pub open spec fn host_message(self) -> Seq<char> {
        match self {
            ApiFailure::Transport => missing_message("Transport error communicating with API"@),
            ApiFailure::Status { code, body } => missing_message(
                "HTTP status code "@ + decimal(code as int) + " trying to reach API: "@ + detail_of(
                    body,
                ),
            ),
            ApiFailure::Unparsable(cause) => failure_message(
                "Failed to parse response received from API as JSON"@,
                cause@,
            ),
        }
    }

    /// The failure as the host reports it.
    pub fn pg_error(self) -> (error: PgError)
        ensures
            error.message@ == self.host_message(),
    {
        match self {
            ApiFailure::Transport => PgError::missing("Transport error communicating with API"),
            ApiFailure::Status { code, body } => {
                let number = decimal_string(code as i64);
                let detail = error_detail(body);
                let text = String::from_str("HTTP status code ").concat(number.as_str()).concat(
                    " trying to reach API: ",
                ).concat(detail.as_str());
                PgError::missing(text.as_str())
            },
            ApiFailure::Unparsable(cause) => PgError::failed(
                "Failed to parse response received from API as JSON",
                cause.as_str(),
            ),
        }
    }
}

/// What is said where a provider's response holds no embedding.
pub open spec fn no_embedding(provider: Seq<char>) -> Seq<char> {
    "No embedding object in "@ + provider + " response"@
}

/// The embedding of the one input of a request, out of the embeddings in
/// the response of `provider`: the first, unchanged, and an error for the
/// host if there is none.
pub fn first_embedding(embeddings: Vec<Vec<Scalar>>, provider: &str) -> (r: Result<
    Vec<Scalar>,
    PgError,
>)
    ensures
        embeddings@.len() > 0 ==> r is Ok && r->Ok_0@ == embeddings@[0]@,
        embeddings@.len() == 0 ==> r is Err && r->Err_0.message@ == missing_message(
            no_embedding(provider@),
        ),
{
    let mut embeddings = embeddings;
    if embeddings.len() > 0 {
        Ok(embeddings.swap_remove(0))
    } else {
        let text = String::from_str("No embedding object in ").concat(provider).concat(
            " response",
        );
        Err(PgError::missing(text.as_str()))
    }
}

} // verus!
