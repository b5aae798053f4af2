//! [`ApiError`]: every way a request can fail, and its mapping onto an HTTP status, a
//! `{"error": "..."}` body and, for rate and capacity limits, a `Retry-After` value.

use vstd::prelude::*;

use crate::state::DemoQuotaExceeded;

verus! {

#[verifier::external_type_specification]
#[verifier::external_body]
pub struct ExAnyhowError(anyhow::Error);

/// Every way a request can fail.
#[derive(Debug)]
pub enum ApiError {
    /// The requested resource does not exist. 404.
    NotFound(String),
    /// The request conflicts with existing state. 409.
    Conflict(String),
    /// The request is malformed or fails validation. 400.
    BadRequest(String),
    /// The request is not permitted. 403.
    Forbidden(String),
    /// A per-client or per-session limit was exceeded. 429, with `Retry-After`.
    TooManyRequests { message: String, retry_after_secs: u64 },
    /// The public Demo exhausted a global capacity limit. 503, with `Retry-After`.
    GlobalCapacity { message: String, retry_after_secs: u64 },
    /// No valid Demo identity was supplied. 401.
    Unauthorized(String),
    /// Anything else. 500; the underlying error is for the server's log, never the body.
    Internal(anyhow::Error),
}

/// The JSON body of every non-2xx response.
#[derive(Debug, Clone, PartialEq, Eq)]
pub struct ErrorBody {
    pub error: String,
}

/// What an [`ApiError`] becomes on the wire.
#[derive(Debug, Clone, PartialEq, Eq)]
pub struct ErrorResponse {
    pub status: u16,
    pub body: ErrorBody,
    pub retry_after_secs: Option<u64>,
}

pub struct ErrorResponseView {
    pub status: u16,
    pub message: Seq<char>,
    pub retry_after_secs: Option<u64>,
}

impl View for ErrorResponse {
    type V = ErrorResponseView;

    open spec fn view(&self) -> ErrorResponseView {
        ErrorResponseView {
            status: self.status,
            message: self.body.error@,
            retry_after_secs: self.retry_after_secs,
        }
    }
}

/// The status, body message and `Retry-After` value that `e` is answered with.
pub open spec fn error_response(e: ApiError) -> ErrorResponseView {
    match e {
        ApiError::NotFound(m) => ErrorResponseView {
            status: 404,
            message: m@,
            retry_after_secs: None,
        },
        ApiError::Conflict(m) => ErrorResponseView {
            status: 409,
            message: m@,
            retry_after_secs: None,
        },
        ApiError::BadRequest(m) => ErrorResponseView {
            status: 400,
            message: m@,
            retry_after_secs: None,
        },
        ApiError::Forbidden(m) => ErrorResponseView {
            status: 403,
            message: m@,
            retry_after_secs: None,
        },
        ApiError::TooManyRequests { message, retry_after_secs } => ErrorResponseView {
            status: 429,
            message: message@,
            retry_after_secs: Some(retry_after_secs),
        },
        ApiError::GlobalCapacity { message, retry_after_secs } => ErrorResponseView {
            status: 503,
            message: message@,
            retry_after_secs: Some(retry_after_secs),
        },
        ApiError::Unauthorized(m) => ErrorResponseView {
            status: 401,
            message: m@,
            retry_after_secs: None,
        },
        ApiError::Internal(_) => ErrorResponseView {
            status: 500,
            message: "internal server error"@,
            retry_after_secs: None,
        },
    }
}

impl ApiError {
    /// The status, body and `Retry-After` value this error is answered with.
    pub fn into_response_parts(self) -> (r: ErrorResponse)
        ensures
            r@ == error_response(self),
    {
        let (status, message, retry_after_secs): (u16, String, Option<u64>) = match self {
            ApiError::NotFound(message) => (404, message, None),
            ApiError::Conflict(message) => (409, message, None),
            ApiError::BadRequest(message) => (400, message, None),
            ApiError::Forbidden(message) => (403, message, None),
            ApiError::TooManyRequests { message, retry_after_secs } => (
                429,
                message,
                Some(retry_after_secs),
            ),
            ApiError::GlobalCapacity { message, retry_after_secs } => (
                503,
                message,
                Some(retry_after_secs),
            ),
            ApiError::Unauthorized(message) => (401, message, None),
            ApiError::Internal(_) => (500, String::from_str("internal server error"), None),
        };
        ErrorResponse { status, body: ErrorBody { error: message }, retry_after_secs }
    }
}

impl From<anyhow::Error> for ApiError {
    fn from(err: anyhow::Error) -> (r: ApiError) {
        ApiError::Internal(err)
    }
}

impl vstd::std_specs::convert::FromSpecImpl<anyhow::Error> for ApiError {
    open spec fn obeys_from_spec() -> bool {
        true
    }

    open spec fn from_spec(err: anyhow::Error) -> ApiError {
        ApiError::Internal(err)
    }
}

/// The messages of `error` and of each of its causes, outermost first, as `anyhow`'s
/// `Error::chain` walks them and each one's `Display` writes it.
pub uninterp spec fn error_chain(error: anyhow::Error) -> Seq<Seq<char>>;

/// An `anyhow::Error` whose message is `message`, by `anyhow::Error::msg`. Trusted: such an
/// error wraps the message alone, with no cause behind it, and displays as the message, so its
/// chain of messages is that one message.
#[verifier::external_body]
fn error_with_message(message: String) -> (r: anyhow::Error)
    ensures
        error_chain(r) == seq![message@],
{
    anyhow::Error::msg(message)
}

/// A 500 for a failure described by `message`; the description is for the server's log only.
pub fn internal_error(message: String) -> (r: ApiError)
    ensures
        r matches ApiError::Internal(e) && error_chain(e) == seq![message@],
{
    ApiError::Internal(error_with_message(message))
}

/// The 409 refusing to delete template `id` while saved loops still refer to it: the one
/// storage failure a client can act on.
pub fn template_in_use(id: i64) -> (r: ApiError)
    ensures
        r matches ApiError::Conflict(m) && m@ == "template "@ + crate::text::signed_decimal(
            id as int,
        ) + " is still referenced by one or more saved loops and cannot be deleted"@,
{
    ApiError::Conflict(
        crate::text::text_with_int(
            "template ",
            id,
            " is still referenced by one or more saved loops and cannot be deleted",
        ),
    )
}

/// A 400 carrying `message`.
pub fn bad_request(message: String) -> (r: ApiError)
    ensures
        r == ApiError::BadRequest(message),
{
    ApiError::BadRequest(message)
}

/// A 429 carrying `message` and `retry_after_secs`.
pub fn too_many(message: String, retry_after_secs: u64) -> (r: ApiError)
    ensures
        r == (ApiError::TooManyRequests { message, retry_after_secs }),
{
    ApiError::TooManyRequests { message, retry_after_secs }
}

/// A 503 carrying `message` and `retry_after_secs`.
pub fn global_capacity(message: String, retry_after_secs: u64) -> (r: ApiError)
    ensures
        r == (ApiError::GlobalCapacity { message, retry_after_secs }),
{
    ApiError::GlobalCapacity { message, retry_after_secs }
}

/// The 429 answering an exhausted accepted-start quota, with its wait.
pub fn quota_error(error: DemoQuotaExceeded) -> (r: ApiError)
    ensures
        r matches ApiError::TooManyRequests { message, retry_after_secs } && retry_after_secs
            == error.retry_after_secs && message@
            == "demo accepted-start quota exceeded; wait before starting another tune"@,
{
    too_many(
        String::from_str("demo accepted-start quota exceeded; wait before starting another tune"),
        error.retry_after_secs,
    )
}

/// Law: every error is answered with a client or server error status; exactly the rate
/// and capacity limits carry a `Retry-After`; and an internal error's body is always the
/// same fixed text, never the underlying error.
pub proof fn law_error_responses(e: ApiError)
    ensures
        400 <= error_response(e).status < 600,
        error_response(e).retry_after_secs is Some <==> (error_response(e).status == 429
            || error_response(e).status == 503),
        e is Internal ==> error_response(e).message == "internal server error"@,
{
}

} // verus!
