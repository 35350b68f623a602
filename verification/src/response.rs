//! Responses and errors produced by the request handlers. The HTTP layer
//! turns a `Response` into a JSON body and a `ResponseError` into a
//! `400 Bad Request` carrying an error tag.

use vstd::prelude::*;
use vstd::string::StringExecFns;

verus! {

/// Declares serde_json's document type so a `Response` can carry a
/// ready-made JSON body through the library. The library never looks inside
/// such a value; only the HTTP layer builds and renders them.
#[verifier::external_type_specification]
#[verifier::external_body]
pub struct ExJsonValue(serde_json::Value);

/// What a request handler hands to the HTTP layer: a ready-made JSON
/// document, or a plain message text rendered as a JSON object with a
/// single message field.
pub enum Response {
    Json(serde_json::Value),
    Text(String),
}

impl Response {
    /// The message text of a `Text` response, if this is one.
    pub fn message_text(&self) -> (r: Option<&String>)
        ensures
            match self {
                Response::Text(t) => r matches Some(m) && m@ == t@,
                Response::Json(_) => r is None,
            },
    {
        match self {
            Response::Text(t) => Some(t),
            Response::Json(_) => None,
        }
    }
}

/// Details of a failed length check: the offending field, the inclusive
/// bounds the rule demands, and the actual character count.
#[derive(Debug, Clone)]
pub struct ValidationFailure {
    pub field: String,
    pub min: usize,
    pub max: usize,
    pub actual: usize,
}

/// The failures a request handler can report.
#[derive(Debug)]
pub enum ResponseErrorKind {
    Validation(ValidationFailure),
}

/// An error response. Validation failures are rendered by the HTTP layer as
/// a `400 Bad Request` whose body carries the error tag and the details.
#[derive(Debug)]
pub struct ResponseError(pub ResponseErrorKind);

pub type ResponseResult = Result<Response, ResponseError>;

impl ResponseError {
    /// The failure this error reports.
    pub open spec fn kind_spec(self) -> ResponseErrorKind {
        self.0
    }

    /// The failure this error reports.
    pub fn kind(&self) -> (k: &ResponseErrorKind)
        ensures
            *k == self.kind_spec(),
    {
        &self.0
    }

    /// The HTTP status the error is reported with.
    pub fn status_code(&self) -> (code: u16)
        ensures
            code == 400,
    {
        match &self.0 {
            ResponseErrorKind::Validation(_) => 400,
        }
    }

    /// The tag named in the JSON body of the error response.
    pub fn error_tag(&self) -> (tag: String)
        ensures
            tag@ == "validation_error"@,
    {
        match &self.0 {
            ResponseErrorKind::Validation(_) => String::from_str("validation_error"),
        }
    }
}

impl From<ResponseErrorKind> for ResponseError {
    fn from(kind: ResponseErrorKind) -> (e: Self) {
        ResponseError(kind)
    }
}

impl vstd::std_specs::convert::FromSpecImpl<ResponseErrorKind> for ResponseError {
    open spec fn obeys_from_spec() -> bool {
        true
    }

    open spec fn from_spec(kind: ResponseErrorKind) -> Self {
        ResponseError(kind)
    }
}

} // verus!
