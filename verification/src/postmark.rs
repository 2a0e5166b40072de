//! What the mail service answers, and what the answer means for the
//! delivery of an email.

use vstd::prelude::*;
use vstd::string::*;

verus! {

/// Where the mail service listens.
pub const POSTMARK_API_BASE_URL: &'static str = "https://api.postmarkapp.com";

/// Path under which emails are sent.
pub const POSTMARK_API_ENDPOINT_EMAIL: &'static str = "/email";

/// Header that carries the service's token.
pub const POSTMARK_API_TOKEN_HEADER: &'static str = "X-Postmark-Server-Token";

/// The token with which the service accepts emails and sends none.
pub const POSTMARK_API_TEST_TOKEN: &'static str = "POSTMARK_API_TEST";

/// The answer of the mail service to an email.
#[derive(Debug)]
pub struct SendEmailResponse {
    /// Zero where the service accepted the email.
    pub error_code: i32,
    pub message: String,
    pub message_id: Option<String>,
    pub submitted_at: Option<i64>,
    pub to: Option<String>,
}

/// Why an email was not sent.
#[derive(Debug)]
pub enum PostmarkError {
    /// No token of the service is configured.
    MissingToken,
    ClientBuildError(String),
    RequestBuildError(String),
    RequestError(String),
    ResponseParseError(String),
    UrlParsingError(String),
    /// The service refused the email, with its error code and message.
    ApiError(i32, String),
    /// The service answered with a status that is no success, and with
    /// this body.
    ApiHttpError(u16, String),
}

/// The status code is one of success.
pub open spec fn is_success(status: u16) -> bool {
    200 <= status < 300
}

/// Judges the status of the service's answer: any status but a success is
/// an error that carries the status and the body of the answer.
pub fn check_status(status: u16, body: &str) -> (r: Result<(), PostmarkError>)
    ensures
        r is Ok <==> is_success(status),
        r matches Err(e) ==> e matches PostmarkError::ApiHttpError(s, b) && s == status && b@ == body@,
{
    if 200 <= status && status < 300 {
        Ok(())
    } else {
        Err(PostmarkError::ApiHttpError(status, body.to_string()))
    }
}

/// Judges the service's answer: the email is sent if and only if the
/// error code is zero; any other code is an error that carries the code
/// and the service's message.
pub fn check_response(response: &SendEmailResponse) -> (r: Result<(), PostmarkError>)
    ensures
        r is Ok <==> response.error_code == 0,
        r matches Err(e) ==> e matches PostmarkError::ApiError(code, message) && code == response.error_code
            && message@ == response.message@,
{
    if response.error_code == 0 {
        Ok(())
    } else {
        Err(PostmarkError::ApiError(response.error_code, response.message.clone()))
    }
}

/// Whether `token` is the service's test token, with which no email is
/// really sent.
pub fn is_test_token(token: &str) -> (r: bool)
    ensures
        r == (token@ == POSTMARK_API_TEST_TOKEN@),
{
    crate::text::same_text(token, POSTMARK_API_TEST_TOKEN)
}

} // verus!
