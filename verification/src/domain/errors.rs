use vstd::prelude::*;

verus! {

/// Errors of the service. Each carries a message for the client.
#[derive(Debug)]
pub enum AppError {
    BrowserError(String),
    NetworkError(String),
    ValidationError(String),
    NotFound(String),
    InternalError(String),
}

impl AppError {
    /// The HTTP status with which the error is answered.
    pub open spec fn spec_status(&self) -> u16 {
        match self {
            AppError::BrowserError(_) => 400,
            AppError::NetworkError(_) => 502,
            AppError::ValidationError(_) => 400,
            AppError::NotFound(_) => 404,
            AppError::InternalError(_) => 500,
        }
    }

    /// The name of the error's kind in an error response.
    pub open spec fn spec_kind(&self) -> Seq<char> {
        match self {
            AppError::BrowserError(_) => "browser_error"@,
            AppError::NetworkError(_) => "network_error"@,
            AppError::ValidationError(_) => "validation_error"@,
            AppError::NotFound(_) => "not_found"@,
            AppError::InternalError(_) => "internal_error"@,
        }
    }

    /// The message that the error carries.
    pub open spec fn spec_message(&self) -> String {
        match self {
            AppError::BrowserError(m) => *m,
            AppError::NetworkError(m) => *m,
            AppError::ValidationError(m) => *m,
            AppError::NotFound(m) => *m,
            AppError::InternalError(m) => *m,
        }
    }

    /// HTTP status of the error response: 400 for browser and validation
    /// errors, 502 for network errors, 404 for a missing resource, 500 for
    /// internal errors.
    pub fn status_code(&self) -> (r: u16)
        ensures
            r == self.spec_status(),
    {
        match self {
            AppError::BrowserError(_) => 400,
            AppError::NetworkError(_) => 502,
            AppError::ValidationError(_) => 400,
            AppError::NotFound(_) => 404,
            AppError::InternalError(_) => 500,
        }
    }

    /// The `type` field of the error response.
    pub fn error_type(&self) -> (r: &'static str)
        ensures
            r@ == self.spec_kind(),
    {
        match self {
            AppError::BrowserError(_) => "browser_error",
            AppError::NetworkError(_) => "network_error",
            AppError::ValidationError(_) => "validation_error",
            AppError::NotFound(_) => "not_found",
            AppError::InternalError(_) => "internal_error",
        }
    }

    /// The `error` field of the error response: the carried message.
    pub fn message(&self) -> (r: String)
        ensures
            r == self.spec_message(),
    {
        match self {
            AppError::BrowserError(m) => m.clone(),
            AppError::NetworkError(m) => m.clone(),
            AppError::ValidationError(m) => m.clone(),
            AppError::NotFound(m) => m.clone(),
            AppError::InternalError(m) => m.clone(),
        }
    }

    /// The error as text: its message.
    pub fn to_string(&self) -> (r: String)
        ensures
            r == self.spec_message(),
    {
        self.message()
    }
}

} // verus!
