//! Response vocabulary of the HTTP surface: status classes, the uniform
//! success/error envelope, and the shapes a handler can answer with.

use vstd::prelude::*;

use crate::store::Url;

verus! {

/// The HTTP status classes the service answers with.
#[derive(Clone, Copy, Debug, PartialEq, Eq, Structural)]
pub enum HttpStatus {
    /// 200: the request was carried out.
    Success,
    /// 307: method-preserving redirect to the mapping's target URL.
    TemporaryRedirect,
    /// 403: the credential guard rejected the request.
    Forbidden,
    /// 404: the requested short id has no mapping.
    NotFound,
    /// 413: an input exceeds its declared bound.
    PayloadTooLarge,
    /// 422: the request is well-formed but cannot be carried out.
    UnprocessableEntity,
    /// 500: opaque storage malfunction.
    InternalServerError,
}

impl HttpStatus {
    /// The numeric status code sent on the wire.
    pub open spec fn spec_code(self) -> u16 {
        match self {
            HttpStatus::Success => 200,
            HttpStatus::TemporaryRedirect => 307,
            HttpStatus::Forbidden => 403,
            HttpStatus::NotFound => 404,
            HttpStatus::PayloadTooLarge => 413,
            HttpStatus::UnprocessableEntity => 422,
            HttpStatus::InternalServerError => 500,
        }
    }

    pub fn code(self) -> (c: u16)
        ensures
            c == self.spec_code(),
    {
        match self {
            HttpStatus::Success => 200,
            HttpStatus::TemporaryRedirect => 307,
            HttpStatus::Forbidden => 403,
            HttpStatus::NotFound => 404,
            HttpStatus::PayloadTooLarge => 413,
            HttpStatus::UnprocessableEntity => 422,
            HttpStatus::InternalServerError => 500,
        }
    }
}

/// The uniform envelope of every non-data management response.
pub struct GenericResponse {
    pub success: bool,
    pub message: String,
    pub error: Option<String>,
}

impl GenericResponse {
    pub fn success(message: &str) -> (r: Self)
        ensures
            r.success == true,
            r.message@ == message@,
            r.error is None,
    {
        Self { success: true, message: message.to_owned(), error: None }
    }

    pub fn err(message: &str, error: &str) -> (r: Self)
        ensures
            r.success == false,
            r.message@ == message@,
            r.error is Some && r.error->0@ == error@,
    {
        Self { success: false, message: message.to_owned(), error: Some(error.to_owned()) }
    }
}

/// Everything a request can be answered with.
#[allow(inconsistent_fields)]
pub enum ApiResponse {
    /// A status alone, without a body.
    Status { status: HttpStatus },
    /// A status with the uniform envelope as its body.
    Envelope { status: HttpStatus, body: GenericResponse },
    /// A single mapping as structured data.
    Record { status: HttpStatus, body: Url },
    /// A sequence of mappings as structured data.
    Records { status: HttpStatus, body: Vec<Url> },
    /// A redirect: the location header's value and the mapping as its body.
    Redirect { status: HttpStatus, location: String, body: Url },
}

impl ApiResponse {
    pub open spec fn spec_status(&self) -> HttpStatus {
        match self {
            ApiResponse::Status { status } => *status,
            ApiResponse::Envelope { status, .. } => *status,
            ApiResponse::Record { status, .. } => *status,
            ApiResponse::Records { status, .. } => *status,
            ApiResponse::Redirect { status, .. } => *status,
        }
    }

    /// The HTTP status this response is sent with.
    pub fn status(&self) -> (s: HttpStatus)
        ensures
            s == self.spec_status(),
    {
        match self {
            ApiResponse::Status { status } => *status,
            ApiResponse::Envelope { status, .. } => *status,
            ApiResponse::Record { status, .. } => *status,
            ApiResponse::Records { status, .. } => *status,
            ApiResponse::Redirect { status, .. } => *status,
        }
    }
}

/// Holds when `r` is the envelope `(status, success, message, error)`.
pub open spec fn envelope_is(
    r: GenericResponse,
    success: bool,
    message: Seq<char>,
    error: Option<Seq<char>>,
) -> bool {
    &&& r.success == success
    &&& r.message@ == message
    &&& match (r.error, error) {
        (Some(e), Some(want)) => e@ == want,
        (None, None) => true,
        _ => false,
    }
}

/// Holds when `r` answers with `status` and an error envelope carrying
/// `message` and `error`.
pub open spec fn is_err_envelope(
    r: ApiResponse,
    status: HttpStatus,
    message: Seq<char>,
    error: Seq<char>,
) -> bool {
    match r {
        ApiResponse::Envelope { status: s, body } => s == status && envelope_is(
            body,
            false,
            message,
            Some(error),
        ),
        _ => false,
    }
}

/// Holds when `r` answers with 200 and a success envelope carrying `message`.
pub open spec fn is_success_envelope(r: ApiResponse, message: Seq<char>) -> bool {
    match r {
        ApiResponse::Envelope { status: s, body } => s == HttpStatus::Success && envelope_is(
            body,
            true,
            message,
            None,
        ),
        _ => false,
    }
}

} // verus!
