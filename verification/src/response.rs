//! The handler's replies: the response type, the error codes and message
//! texts it uses, and the constructors that render the JSON bodies.

use crate::json::error_body;
use crate::json::error_body_text;
use crate::json::success_body;
use crate::json::success_body_text;
use vstd::prelude::*;

verus! {

/// An HTTP reply as the handler shapes it: a status code, the one header
/// value it ever sends, and a JSON body.
pub struct HttpResponse {
    pub status: u16,
    pub content_type: String,
    pub body: String,
}

/// The success payload: the fresh identifier and a status message.
pub struct RegistrationResult {
    pub user_id: String,
    pub message: String,
}

/// The error payload: an error code tag and a human-readable message.
pub struct ErrorResponse {
    pub error: String,
    pub message: String,
}

pub open spec fn invalid_request_code() -> Seq<char> {
    "INVALID_REQUEST"@
}

pub open spec fn validation_error_code() -> Seq<char> {
    "VALIDATION_ERROR"@
}

pub open spec fn registration_failed_code() -> Seq<char> {
    "REGISTRATION_FAILED"@
}

pub open spec fn invalid_request_message() -> Seq<char> {
    "Invalid request body"@
}

pub open spec fn missing_fields_message() -> Seq<char> {
    "Email, password, and tenant_id are required"@
}

pub open spec fn bad_email_message() -> Seq<char> {
    "Invalid email format"@
}

pub open spec fn short_password_message() -> Seq<char> {
    "Password must be at least 8 characters long"@
}

pub open spec fn success_message() -> Seq<char> {
    "User registered successfully. Please check your email for verification."@
}

pub open spec fn missing_pool_message() -> Seq<char> {
    "USER_POOL_ID environment variable not set"@
}

pub open spec fn json_content_type() -> Seq<char> {
    "application/json"@
}

/// The reply carries the given status and the error body for the code and
/// message, as JSON.
pub open spec fn is_error_response(r: &HttpResponse, status: int, code: Seq<char>, message: Seq<char>) -> bool {
    r.status == status && r.content_type@ == json_content_type() && r.body@ == error_body(
        code,
        message,
    )
}

/// The reply is the created reply: status 201 with the success body for
/// the identifier and message.
pub open spec fn is_success_response(r: &HttpResponse, user_id: Seq<char>, message: Seq<char>) -> bool {
    r.status == 201 && r.content_type@ == json_content_type() && r.body@ == success_body(
        user_id,
        message,
    )
}

/// Builds the error reply for a status, an error code and a message.
pub fn create_error_response(status: u16, error_code: &str, message: &str) -> (r: HttpResponse)
    ensures
        is_error_response(&r, status as int, error_code@, message@),
{
    let payload = ErrorResponse {
        error: String::from_str(error_code),
        message: String::from_str(message),
    };
    HttpResponse {
        status,
        content_type: String::from_str("application/json"),
        body: error_body_text(payload.error.as_str(), payload.message.as_str()),
    }
}

/// Builds the created reply around a success payload.
pub fn create_success_response(data: &RegistrationResult) -> (r: HttpResponse)
    ensures
        is_success_response(&r, data.user_id@, data.message@),
{
    HttpResponse {
        status: 201,
        content_type: String::from_str("application/json"),
        body: success_body_text(data.user_id.as_str(), data.message.as_str()),
    }
}

} // verus!
