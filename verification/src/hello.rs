//! The greeting endpoints. Each handler computes the full response for its
//! route; the HTTP layer only extracts the request and renders the result.

use vstd::prelude::*;
use vstd::string::StringExecFns;
use vstd::string::StrSliceExecFns;

use crate::response::{Response, ResponseError, ResponseErrorKind, ResponseResult, ValidationFailure};
use crate::service_state::ServiceState;

verus! {

/// Inclusive bounds on the character count of a greeting name submitted in
/// a request, by path parameter or by body.
pub const REQUEST_NAME_MIN_LEN: usize = 2;

pub const REQUEST_NAME_MAX_LEN: usize = 50;

/// A submitted greeting name is acceptable when its character count lies
/// within the inclusive bounds.
pub open spec fn valid_request_name(name: Seq<char>) -> bool {
    REQUEST_NAME_MIN_LEN <= name.len() <= REQUEST_NAME_MAX_LEN
}

/// The greeting text returned for `name`.
pub open spec fn hello_text(name: Seq<char>) -> Seq<char> {
    "Hello, "@ + name + "!"@
}

/// Whether `r` reports a failed length check of the request's name field,
/// with the request-name bounds and the actual count `len`.
pub open spec fn reports_invalid_name(r: ResponseResult, len: nat) -> bool {
    &&& r matches Err(e)
    &&& e.kind_spec() matches ResponseErrorKind::Validation(f)
    &&& f.field@ == "name"@
    &&& f.min == REQUEST_NAME_MIN_LEN
    &&& f.max == REQUEST_NAME_MAX_LEN
    &&& f.actual == len
}

/// The body of a greeting request.
#[derive(Debug, Clone)]
pub struct HelloRequest {
    pub name: String,
}

impl HelloRequest {
    /// Checks the request against the name-length rule.
    pub fn validate(&self) -> (r: Result<(), ValidationFailure>)
        ensures
            r is Ok <==> valid_request_name(self.name@),
            r matches Err(f) ==> f.field@ == "name"@ && f.min == REQUEST_NAME_MIN_LEN
                && f.max == REQUEST_NAME_MAX_LEN && f.actual == self.name@.len(),
    {
        let n: usize = self.name.as_str().unicode_len();
        if REQUEST_NAME_MIN_LEN <= n && n <= REQUEST_NAME_MAX_LEN {
            Ok(())
        } else {
            Err(ValidationFailure {
                field: String::from_str("name"),
                min: REQUEST_NAME_MIN_LEN,
                max: REQUEST_NAME_MAX_LEN,
                actual: n,
            })
        }
    }
}

/// Builds the greeting for `name`.
pub fn greet(name: &str) -> (message: String)
    ensures
        message@ == hello_text(name@),
{
    let mut message = String::from_str("Hello, ");
    message.append(name);
    message.append("!");
    message
}

/// `GET /api/v1/hello`: greets with the configured name.
pub fn get_hello_handler(state: &ServiceState) -> (r: ResponseResult)
    ensures
        r matches Ok(resp) && resp matches Response::Text(m) && m@ == hello_text(state@),
{
    Ok(Response::Text(greet(state.response_name())))
}

/// The root greeting route, mounted alone where the hello router exposes
/// no name path; it answers exactly as `get_hello_handler` does.
pub fn hello_handler(state: &ServiceState) -> (r: ResponseResult)
    ensures
        r matches Ok(resp) && resp matches Response::Text(m) && m@ == hello_text(state@),
{
    Ok(Response::Text(greet(state.response_name())))
}

/// `GET /api/v1/hello/{name}`: greets with the submitted name once it
/// passes the name-length rule, and reports a validation failure otherwise.
pub fn get_hello_name_handler(state: &ServiceState, name: &str) -> (r: ResponseResult)
    ensures
        valid_request_name(name@) ==> (r matches Ok(resp) && resp matches Response::Text(m)
            && m@ == hello_text(name@)),
        !valid_request_name(name@) ==> reports_invalid_name(r, name@.len()),
{
    let n: usize = name.unicode_len();
    if REQUEST_NAME_MIN_LEN <= n && n <= REQUEST_NAME_MAX_LEN {
        Ok(Response::Text(greet(name)))
    } else {
        Err(ResponseError::from(ResponseErrorKind::Validation(ValidationFailure {
            field: String::from_str("name"),
            min: REQUEST_NAME_MIN_LEN,
            max: REQUEST_NAME_MAX_LEN,
            actual: n,
        })))
    }
}

/// `POST /api/v1/hello`: validates the submitted body, then greets with the
/// submitted name; an invalid name is reported as a validation failure.
pub fn post_hello_handler(state: &ServiceState, payload: HelloRequest) -> (r: ResponseResult)
    ensures
        valid_request_name(payload.name@) ==> (r matches Ok(resp) && resp matches Response::Text(m)
            && m@ == hello_text(payload.name@)),
        !valid_request_name(payload.name@) ==> reports_invalid_name(r, payload.name@.len()),
{
    match payload.validate() {
        Ok(()) => Ok(Response::Text(greet(payload.name.as_str()))),
        Err(f) => Err(ResponseError::from(ResponseErrorKind::Validation(f))),
    }
}

} // verus!
