//! The service's error kinds and their HTTP problem mapping.

use vstd::prelude::*;

use crate::text::concat2;

verus! {

/// Errors of the integration service.
#[derive(Debug)]
pub enum ServiceError {
    Repository(String),
    Validation(String),
    Integration(String),
    Configuration(String),
    NotFound(String),
}

impl ServiceError {
    /// The text an error displays: its kind's prefix, then its message.
    pub open spec fn display_text(&self) -> Seq<char> {
        match self {
            ServiceError::Repository(m) => "repository error: "@ + m@,
            ServiceError::Validation(m) => "validation error: "@ + m@,
            ServiceError::Integration(m) => "integration error: "@ + m@,
            ServiceError::Configuration(m) => "configuration error: "@ + m@,
            ServiceError::NotFound(m) => "not found: "@ + m@,
        }
    }

    /// The message an error carries, without its kind's prefix.
    pub open spec fn message(&self) -> String {
        match self {
            ServiceError::Repository(m) => *m,
            ServiceError::Validation(m) => *m,
            ServiceError::Integration(m) => *m,
            ServiceError::Configuration(m) => *m,
            ServiceError::NotFound(m) => *m,
        }
    }

    /// The displayed text of the error.
    pub fn to_display_string(&self) -> (r: String)
        ensures
            r@ == self.display_text(),
    {
        match self {
            ServiceError::Repository(m) => concat2("repository error: ", m.as_str()),
            ServiceError::Validation(m) => concat2("validation error: ", m.as_str()),
            ServiceError::Integration(m) => concat2("integration error: ", m.as_str()),
            ServiceError::Configuration(m) => concat2("configuration error: ", m.as_str()),
            ServiceError::NotFound(m) => concat2("not found: ", m.as_str()),
        }
    }
}

/// A validation error carrying the given message.
pub fn validation_error(message: &str) -> (e: ServiceError)
    ensures
        e matches ServiceError::Validation(m) && m@ == message@,
{
    ServiceError::Validation(String::from_str(message))
}

/// A configuration error carrying the given message.
pub fn configuration_error(message: &str) -> (e: ServiceError)
    ensures
        e matches ServiceError::Configuration(m) && m@ == message@,
{
    ServiceError::Configuration(String::from_str(message))
}

pub const STATUS_BAD_REQUEST: u16 = 400;

pub const STATUS_UNAUTHORIZED: u16 = 401;

pub const STATUS_NOT_FOUND: u16 = 404;

pub const STATUS_INTERNAL_SERVER_ERROR: u16 = 500;

pub const STATUS_BAD_GATEWAY: u16 = 502;

pub const STATUS_SERVICE_UNAVAILABLE: u16 = 503;

/// A problem answer of the HTTP API: a status code and a detail message.
#[derive(Debug)]
pub struct ApiProblem {
    pub status: u16,
    pub detail: String,
}

impl ApiProblem {
    pub fn bad_request(detail: String) -> (p: ApiProblem)
        ensures
            p.status == STATUS_BAD_REQUEST,
            p.detail == detail,
    {
        ApiProblem { status: STATUS_BAD_REQUEST, detail }
    }

    pub fn unauthorized(detail: String) -> (p: ApiProblem)
        ensures
            p.status == STATUS_UNAUTHORIZED,
            p.detail == detail,
    {
        ApiProblem { status: STATUS_UNAUTHORIZED, detail }
    }

    pub fn not_found(detail: String) -> (p: ApiProblem)
        ensures
            p.status == STATUS_NOT_FOUND,
            p.detail == detail,
    {
        ApiProblem { status: STATUS_NOT_FOUND, detail }
    }

    pub fn internal_server_error(detail: String) -> (p: ApiProblem)
        ensures
            p.status == STATUS_INTERNAL_SERVER_ERROR,
            p.detail == detail,
    {
        ApiProblem { status: STATUS_INTERNAL_SERVER_ERROR, detail }
    }

    pub fn bad_gateway(detail: String) -> (p: ApiProblem)
        ensures
            p.status == STATUS_BAD_GATEWAY,
            p.detail == detail,
    {
        ApiProblem { status: STATUS_BAD_GATEWAY, detail }
    }

    pub fn unavailable(detail: String) -> (p: ApiProblem)
        ensures
            p.status == STATUS_SERVICE_UNAVAILABLE,
            p.detail == detail,
    {
        ApiProblem { status: STATUS_SERVICE_UNAVAILABLE, detail }
    }
}

/// The HTTP status each service error kind is answered with.
pub open spec fn status_for(error: ServiceError) -> u16 {
    match error {
        ServiceError::Validation(_) => STATUS_BAD_REQUEST,
        ServiceError::Configuration(_) => STATUS_SERVICE_UNAVAILABLE,
        ServiceError::Integration(_) => STATUS_BAD_GATEWAY,
        ServiceError::Repository(_) => STATUS_INTERNAL_SERVER_ERROR,
        ServiceError::NotFound(_) => STATUS_NOT_FOUND,
    }
}

/// Maps a service error to the problem the HTTP API answers with; the
/// message is kept.
pub fn map_service_error(error: ServiceError) -> (p: ApiProblem)
    ensures
        p.status == status_for(error),
        p.detail == error.message(),
{
    match error {
        ServiceError::Validation(message) => ApiProblem::bad_request(message),
        ServiceError::Configuration(message) => ApiProblem::unavailable(message),
        ServiceError::Integration(message) => ApiProblem::bad_gateway(message),
        ServiceError::Repository(message) => ApiProblem::internal_server_error(message),
        ServiceError::NotFound(message) => ApiProblem::not_found(message),
    }
}

} // verus!
