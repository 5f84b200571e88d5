//! The response envelope and the closed error taxonomy of the service
//! layer. Every failure is one of these typed variants; no failure travels
//! as a bare string.

use vstd::prelude::*;
use vstd::string::StringExecFns;

verus! {

/// The error payload of a failed request.
#[derive(Debug)]
pub struct ErrorResponse {
    pub code: String,
    pub message: String,
    pub details: Option<String>,
}

/// The envelope a handler answers with: either data or an error, flagged by
/// `success`.
#[derive(Debug)]
pub struct ApiResponse<T> {
    pub success: bool,
    pub data: Option<T>,
    pub error: Option<ErrorResponse>,
}

impl<T> ApiResponse<T> {
    pub fn success(data: T) -> (r: Self)
        ensures
            r.success,
            r.data == Some(data),
            r.error is None,
    {
        ApiResponse { success: true, data: Some(data), error: None }
    }

    pub fn error(error: ErrorResponse) -> (r: Self)
        ensures
            !r.success,
            r.data is None,
            r.error == Some(error),
    {
        ApiResponse { success: false, data: None, error: Some(error) }
    }
}

/// The typed failures an operation can end in.
#[derive(Debug)]
pub enum ApiError {
    NotFound { resource: String },
    BadRequest { message: String },
    ValidationError { message: String },
    InternalServerError,
    RepositoryError { message: String },
    Conflict { message: String },
}

impl ApiError {
    pub fn not_found(resource: &str) -> (r: Self)
        ensures
            r matches ApiError::NotFound { resource: s } && s@ == resource@,
    {
        ApiError::NotFound { resource: resource.to_owned() }
    }

    pub fn bad_request(message: &str) -> (r: Self)
        ensures
            r matches ApiError::BadRequest { message: s } && s@ == message@,
    {
        ApiError::BadRequest { message: message.to_owned() }
    }

    pub fn validation_error(message: &str) -> (r: Self)
        ensures
            r matches ApiError::ValidationError { message: s } && s@ == message@,
    {
        ApiError::ValidationError { message: message.to_owned() }
    }

    pub fn repository_error(message: &str) -> (r: Self)
        ensures
            r matches ApiError::RepositoryError { message: s } && s@ == message@,
    {
        ApiError::RepositoryError { message: message.to_owned() }
    }

    pub fn conflict(message: &str) -> (r: Self)
        ensures
            r matches ApiError::Conflict { message: s } && s@ == message@,
    {
        ApiError::Conflict { message: message.to_owned() }
    }

    /// The wire payload for this error: a stable code, and a message that
    /// names the missing resource for `NotFound`.
    pub fn to_error_response(&self) -> (r: ErrorResponse)
        ensures
            r.details is None,
            match *self {
                ApiError::NotFound { resource } => r.code@ == "NOT_FOUND"@
                    && r.message@ == "Resource not found: "@ + resource@,
                ApiError::BadRequest { message } => r.code@ == "BAD_REQUEST"@
                    && r.message@ == message@,
                ApiError::ValidationError { message } => r.code@ == "VALIDATION_ERROR"@
                    && r.message@ == message@,
                ApiError::InternalServerError => r.code@ == "INTERNAL_SERVER_ERROR"@
                    && r.message@ == "An internal server error occurred"@,
                ApiError::RepositoryError { message } => r.code@ == "REPOSITORY_ERROR"@
                    && r.message@ == message@,
                ApiError::Conflict { message } => r.code@ == "CONFLICT"@
                    && r.message@ == message@,
            },
    {
        match self {
            ApiError::NotFound { resource } => ErrorResponse {
                code: "NOT_FOUND".to_owned(),
                message: "Resource not found: ".to_owned().concat(resource.as_str()),
                details: None,
            },
            ApiError::BadRequest { message } => ErrorResponse {
                code: "BAD_REQUEST".to_owned(),
                message: message.clone(),
                details: None,
            },
            ApiError::ValidationError { message } => ErrorResponse {
                code: "VALIDATION_ERROR".to_owned(),
                message: message.clone(),
                details: None,
            },
            ApiError::InternalServerError => ErrorResponse {
                code: "INTERNAL_SERVER_ERROR".to_owned(),
                message: "An internal server error occurred".to_owned(),
                details: None,
            },
            ApiError::RepositoryError { message } => ErrorResponse {
                code: "REPOSITORY_ERROR".to_owned(),
                message: message.clone(),
                details: None,
            },
            ApiError::Conflict { message } => ErrorResponse {
                code: "CONFLICT".to_owned(),
                message: message.clone(),
                details: None,
            },
        }
    }
}

impl From<String> for ApiError {
    fn from(message: String) -> Self {
        ApiError::RepositoryError { message }
    }
}

impl vstd::std_specs::convert::FromSpecImpl<String> for ApiError {
    open spec fn obeys_from_spec() -> bool {
        true
    }

    open spec fn from_spec(message: String) -> Self {
        ApiError::RepositoryError { message }
    }
}

} // verus!
