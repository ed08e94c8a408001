//! The shape of the web API's answers: the response body and the mapping
//! from errors to HTTP status, body code and message.
use vstd::prelude::*;
use vstd::string::*;

pub mod commands;
pub mod middleware;
pub mod response_code;

use self::response_code::{code_number, get_code, CodeEnum};

verus! {

/// The body of every API response.
#[derive(Debug, Clone, PartialEq, Eq)]
pub struct CustomResponse<T> {
    pub message: String,
    pub code: u16,
    pub body: Option<T>,
}

impl<T> CustomResponse<T> {
    /// A response with the given message, outcome class and body.
    pub fn new(msg: &str, code: CodeEnum, res: Option<T>) -> (r: Self)
        ensures
            r.message@ == msg@,
            r.code == code_number(code),
            r.body == res,
    {
        CustomResponse { code: get_code(code), message: msg.to_owned(), body: res }
    }

    /// A successful response carrying `resp`.
    pub fn success(resp: Option<T>) -> (r: Self)
        ensures
            r.message@ == "Success"@,
            r.code == code_number(CodeEnum::Success),
            r.body == resp,
    {
        CustomResponse { code: get_code(CodeEnum::Success), message: String::from_str("Success"), body: resp }
    }
}

/// The ways an API call fails, each with the text the client sees.
#[derive(Debug, Clone, PartialEq, Eq)]
pub enum CustomResponseError {
    NotFound(String),
    BadRequest(String),
    Unauthorized(String),
    Forbidden(String),
    MethodNotAllowed(String),
    Other(String, CodeEnum),
    ServiceError,
}

/// What an error is answered with: HTTP status, body code and message.
pub open spec fn error_reply(e: CustomResponseError) -> (u16, u16, Seq<char>) {
    match e {
        CustomResponseError::ServiceError => (500, code_number(CodeEnum::ServiceError), "Server Error"@),
        CustomResponseError::Forbidden(s) => (403, code_number(CodeEnum::Forbidden), s@),
        CustomResponseError::Unauthorized(s) => (401, code_number(CodeEnum::Unauthorized), s@),
        CustomResponseError::NotFound(s) => (404, code_number(CodeEnum::NotFound), s@),
        CustomResponseError::BadRequest(s) => (400, code_number(CodeEnum::BadRequest), s@),
        CustomResponseError::MethodNotAllowed(s) => (405, code_number(CodeEnum::MethodNotAllowed), s@),
        CustomResponseError::Other(s, c) => (200, code_number(c), s@),
    }
}

impl CustomResponseError {
    /// The error as text: its message, or `Server error` for a server fault.
    pub fn to_string(&self) -> (r: String)
        ensures
            r@ == match *self {
                CustomResponseError::ServiceError => "Server error"@,
                CustomResponseError::NotFound(s) => s@,
                CustomResponseError::BadRequest(s) => s@,
                CustomResponseError::Unauthorized(s) => s@,
                CustomResponseError::Forbidden(s) => s@,
                CustomResponseError::MethodNotAllowed(s) => s@,
                CustomResponseError::Other(s, _) => s@,
            },
    {
        match self {
            CustomResponseError::NotFound(s) => s.clone(),
            CustomResponseError::BadRequest(s) => s.clone(),
            CustomResponseError::Unauthorized(s) => s.clone(),
            CustomResponseError::Forbidden(s) => s.clone(),
            CustomResponseError::MethodNotAllowed(s) => s.clone(),
            CustomResponseError::Other(s, _) => s.clone(),
            CustomResponseError::ServiceError => String::from_str("Server error"),
        }
    }

    /// The HTTP status and body that the error is answered with.
    pub fn error_response(&self) -> (r: (u16, CustomResponse<()>))
        ensures
            r.0 == error_reply(*self).0,
            r.1.code == error_reply(*self).1,
            r.1.message@ == error_reply(*self).2,
            r.1.body is None,
    {
        match self {
            CustomResponseError::ServiceError => (
                500,
                CustomResponse::<()>::new("Server Error", CodeEnum::ServiceError, None),
            ),
            CustomResponseError::Forbidden(e) => (
                403,
                CustomResponse::<()>::new(e.as_str(), CodeEnum::Forbidden, None),
            ),
            CustomResponseError::Unauthorized(e) => (
                401,
                CustomResponse::<()>::new(e.as_str(), CodeEnum::Unauthorized, None),
            ),
            CustomResponseError::NotFound(e) => (
                404,
                CustomResponse::<()>::new(e.as_str(), CodeEnum::NotFound, None),
            ),
            CustomResponseError::BadRequest(e) => (
                400,
                CustomResponse::<()>::new(e.as_str(), CodeEnum::BadRequest, None),
            ),
            CustomResponseError::MethodNotAllowed(e) => (
                405,
                CustomResponse::<()>::new(e.as_str(), CodeEnum::MethodNotAllowed, None),
            ),
            CustomResponseError::Other(s, c) => (
                200,
                CustomResponse::<()>::new(s.as_str(), *c, None),
            ),
        }
    }
}

/// The answer to a request for a path the API does not serve: status 404.
pub fn default_service_handle_error() -> (r: (u16, CustomResponse<()>))
    ensures
        r.0 == 404,
        r.1.code == code_number(CodeEnum::NotFound),
        r.1.message@ == "Request path is not found"@,
        r.1.body is None,
{
    (404, CustomResponse::<()>::new("Request path is not found", CodeEnum::NotFound, None))
}

} // verus!
