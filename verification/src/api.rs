//! What the engine shows to the outside: the ping endpoint, the health
//! endpoint, and the shape of its simple responses.

use crate::repository::check::{key_known, pinged_table};
use crate::repository::error::{unique_violation_code, RepositoryError};
use crate::repository::Repository;
use crate::text::{skip_chars, starts_with};
use vstd::prelude::*;
use vstd::string::*;

verus! {

/// Path under which pings arrive; the key follows it.
pub const PING_URI: &'static str = "/api/v1/ping";

/// Path of the health endpoint.
pub const HEALTH_URI: &'static str = "/health";

/// What every ping is answered with, whether its key was known or not.
pub const PING_RESPONSE: &'static str = "OK";

/// What every ping is answered with, whether its key was known or not.
pub open spec fn ping_response() -> Seq<char> {
    PING_RESPONSE@
}

/// Handles a ping that carries `key`, received at `now`.
///
/// A known key brings its check up. The answer is the same for every key,
/// so that a caller cannot learn from it which keys exist.
pub fn ping(repository: &mut Repository, key: &str, now: i64) -> (response: &'static str)
    ensures
        response@ == ping_response(),
        final(repository).check@ == pinged_table(old(repository).check@, key@, now),
        final(repository).notification == old(repository).notification,
        !key_known(old(repository).check@, key@) ==> final(repository).check@ == old(repository).check@,
        old(repository).wf() ==> final(repository).wf(),
{
    let _uuid = repository.ping(key, now);
    proof {
        if !key_known(old(repository).check@, key@) {
            crate::laws::lemma_unknown_key_is_inert(old(repository).check@, key@, now);
        }
    }
    PING_RESPONSE
}

/// Answers the health endpoint.
pub fn health_handler() -> (response: &'static str)
    ensures
        response@ == "UP"@,
{
    "UP"
}

/// Basic response status.
#[derive(Clone, Copy, Debug, PartialEq, Eq, Structural)]
pub enum ResponseStatus {
    Success,
    Failure,
}

impl ResponseStatus {
    /// Name of the status on the wire.
    pub fn to_string(&self) -> (r: String)
        ensures
            r@ == match self {
                ResponseStatus::Success => "SUCCESS"@,
                ResponseStatus::Failure => "FAILURE"@,
            },
    {
        match self {
            ResponseStatus::Success => "SUCCESS".to_string(),
            ResponseStatus::Failure => "FAILURE".to_string(),
        }
    }
}

/// Generic response for errors and simple calls.
#[derive(Debug)]
pub struct GenericResponse {
    pub status: ResponseStatus,
    pub message: Option<String>,
    pub details: Vec<String>,
}

impl GenericResponse {
    /// The response has the given status and message, and no details.
    pub open spec fn is_plain(&self, status: ResponseStatus, message: Seq<char>) -> bool {
        &&& self.status == status
        &&& self.message matches Some(m) && m@ == message
        &&& self.details@.len() == 0
    }

    pub fn success(message: &str) -> (r: Self)
        ensures
            r.is_plain(ResponseStatus::Success, message@),
    {
        GenericResponse { status: ResponseStatus::Success, message: Some(message.to_string()), details: Vec::new() }
    }

    pub fn failure(message: &str) -> (r: Self)
        ensures
            r.is_plain(ResponseStatus::Failure, message@),
    {
        GenericResponse { status: ResponseStatus::Failure, message: Some(message.to_string()), details: Vec::new() }
    }

    pub fn failure_with_details(message: &str, details: Vec<String>) -> (r: Self)
        ensures
            r.status == ResponseStatus::Failure,
            r.message matches Some(m) && m@ == message@,
            r.details == details,
    {
        GenericResponse { status: ResponseStatus::Failure, message: Some(message.to_string()), details }
    }
}

/// Response for a path that no route serves.
#[derive(Debug)]
pub struct NotFoundResponse {
    pub inner: GenericResponse,
    pub path: String,
}

impl NotFoundResponse {
    pub fn new(path: &str) -> (r: Self)
        ensures
            r.inner.is_plain(ResponseStatus::Failure, "not found"@),
            r.path@ == path@,
    {
        NotFoundResponse { inner: GenericResponse::failure("not found"), path: path.to_string() }
    }
}

/// Failure of a call of the management interface.
#[derive(Debug)]
pub enum ApiError {
    Repository(RepositoryError),
}

/// What a failed call is answered with.
#[derive(Debug)]
pub struct ErrorResponse {
    /// The status code of the answer.
    pub status: u16,
    pub message: String,
    pub details: Vec<String>,
}

/// Status code of the answer to a call that failed with `e`: a conflict
/// for a unique key that is taken, else by the kind of the error.
pub open spec fn error_status(e: RepositoryError) -> u16 {
    if e.code() == Some(unique_violation_code()) {
        409
    } else {
        match e {
            RepositoryError::NotFound { .. } => 404,
            RepositoryError::Forbidden => 403,
            _ => 500,
        }
    }
}

/// Message of the answer to a call that failed with `e`.
pub open spec fn error_message(e: RepositoryError) -> Seq<char> {
    if e.code() == Some(unique_violation_code()) {
        "already exists with name/key"@
    } else {
        match e {
            RepositoryError::NotFound { entity_type, id } => entity_type@ + " with ID "@ + id@ + " does not exist"@,
            _ => e.text(),
        }
    }
}

impl ApiError {
    /// The answer to the failed call.
    pub fn into_response(self) -> (r: ErrorResponse)
        ensures
            r.status == error_status(self->0),
            r.message@ == error_message(self->0),
            r.details@.len() == 0,
    {
        match self {
            ApiError::Repository(e) => {
                if e.is_unique_constraint_violation() {
                    ErrorResponse {
                        status: 409,
                        message: "already exists with name/key".to_string(),
                        details: Vec::new(),
                    }
                } else {
                    match e {
                        RepositoryError::NotFound { entity_type, id } => {
                            let mut message = entity_type;
                            message.append(" with ID ");
                            message.append(id.as_str());
                            message.append(" does not exist");
                            ErrorResponse { status: 404, message, details: Vec::new() }
                        },
                        RepositoryError::Forbidden => ErrorResponse {
                            status: 403,
                            message: e.to_string(),
                            details: Vec::new(),
                        },
                        _ => ErrorResponse { status: 500, message: e.to_string(), details: Vec::new() },
                    }
                }
            },
        }
    }
}

/// The body of an answer has to be put into the shape of an error
/// response: the answer is no success, and it says of its body that it is
/// something else than JSON.
pub open spec fn needs_wrapping(status: u16, content_type: Option<Seq<char>>) -> bool {
    !(200 <= status < 300) && content_type is Some && content_type->0 != "application/json"@
}

/// Whether the body of an answer has to be put into the shape of an error
/// response, given its status and its content type.
pub fn wraps_error_body(status: u16, content_type: Option<&str>) -> (r: bool)
    ensures
        r == needs_wrapping(
            status,
            match content_type {
                Some(t) => Some(t@),
                None => None,
            },
        ),
{
    let success = 200 <= status && status < 300;
    match content_type {
        Some(t) => !success && !crate::text::same_text(t, "application/json"),
        None => false,
    }
}

/// Calls of `path` need no authorization: pings and health checks come
/// from callers without an identity.
pub open spec fn is_open_path(path: Seq<char>) -> bool {
    PING_URI@.is_prefix_of(path) || HEALTH_URI@.is_prefix_of(path)
}

/// Whether calls of `path` need no authorization.
pub fn skips_authorization(path: &str) -> (r: bool)
    ensures
        r == is_open_path(path@),
{
    starts_with(path, PING_URI) || starts_with(path, HEALTH_URI)
}

/// The scheme of the authorization header that carries a token.
pub open spec fn bearer_prefix() -> Seq<char> {
    "Bearer "@
}

/// The token of an authorization header: what follows the bearer scheme.
/// A header of another scheme carries none.
pub fn bearer_token(header: &str) -> (r: Option<String>)
    ensures
        r is Some <==> bearer_prefix().is_prefix_of(header@),
        r matches Some(token) ==> token@ == header@.skip(7),
{
    proof {
        reveal_strlit("Bearer ");
    }
    if starts_with(header, "Bearer ") {
        Some(skip_chars(header, 7))
    } else {
        None
    }
}

} // verus!
