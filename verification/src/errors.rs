//! The error kinds of the service, each carrying a human readable message,
//! and the problem details (RFC 7807) that answer them.
use vstd::prelude::*;
use crate::types::common::{opt_view, problem_type_for, ProblemDetails};

verus! {

#[derive(Debug, Clone)]
pub enum AppError {
    BadRequest(String),
    NotFound(String),
    InternalServerError(String),
    ServiceUnavailable(String),
    Forbidden(String),
    ConfigError(String),
}

pub type AppResult<T> = Result<T, AppError>;

impl AppError {
    /// The message carried.
    pub open spec fn detail(self) -> Seq<char> {
        match self {
            AppError::BadRequest(m) => m@,
            AppError::NotFound(m) => m@,
            AppError::InternalServerError(m) => m@,
            AppError::ServiceUnavailable(m) => m@,
            AppError::Forbidden(m) => m@,
            AppError::ConfigError(m) => m@,
        }
    }

    /// The words that introduce the message in the error's text.
    pub open spec fn prefix(self) -> Seq<char> {
        match self {
            AppError::BadRequest(_) => "Bad request: "@,
            AppError::NotFound(_) => "Not found: "@,
            AppError::InternalServerError(_) => "Internal server error: "@,
            AppError::ServiceUnavailable(_) => "Service unavailable: "@,
            AppError::Forbidden(_) => "Forbidden: "@,
            AppError::ConfigError(_) => "Configuration error: "@,
        }
    }

    /// The HTTP status that answers the error.
    pub open spec fn status(self) -> u16 {
        match self {
            AppError::BadRequest(_) => 400,
            AppError::NotFound(_) => 404,
            AppError::InternalServerError(_) => 500,
            AppError::ServiceUnavailable(_) => 503,
            AppError::Forbidden(_) => 403,
            AppError::ConfigError(_) => 500,
        }
    }

    /// The title of the problem details.
    pub open spec fn title(self) -> Seq<char> {
        match self {
            AppError::BadRequest(_) => "Bad Request"@,
            AppError::NotFound(_) => "Not Found"@,
            AppError::InternalServerError(_) => "Internal Server Error"@,
            AppError::ServiceUnavailable(_) => "Service Unavailable"@,
            AppError::Forbidden(_) => "Forbidden"@,
            AppError::ConfigError(_) => "Configuration Error"@,
        }
    }

    /// The cause of the problem details: a system failure for the errors of
    /// the service itself, none for those of the request.
    pub open spec fn cause(self) -> Option<Seq<char>> {
        match self {
            AppError::InternalServerError(_) => Some("SYSTEM_FAILURE"@),
            AppError::ServiceUnavailable(_) => Some("SYSTEM_FAILURE"@),
            AppError::ConfigError(_) => Some("SYSTEM_FAILURE"@),
            _ => None,
        }
    }

    /// The text of the error: its kind, then its message.
    pub fn message(&self) -> (r: String)
        ensures
            r@ == self.prefix() + self.detail(),
    {
        let (prefix, detail) = match self {
            AppError::BadRequest(m) => ("Bad request: ", m),
            AppError::NotFound(m) => ("Not found: ", m),
            AppError::InternalServerError(m) => ("Internal server error: ", m),
            AppError::ServiceUnavailable(m) => ("Service unavailable: ", m),
            AppError::Forbidden(m) => ("Forbidden: ", m),
            AppError::ConfigError(m) => ("Configuration error: ", m),
        };
        let mut text = prefix.to_owned();
        text.append(detail.as_str());
        text
    }

    /// The HTTP status and the problem details that answer the error.
    pub fn problem_details(&self) -> (r: (u16, ProblemDetails))
        ensures
            r.0 == self.status(),
            opt_view(r.1.problem_type) == problem_type_for(self.status()),
            opt_view(r.1.title) == Some(self.title()),
            r.1.status == Some(self.status()),
            opt_view(r.1.detail) == Some(self.detail()),
            opt_view(r.1.cause) == self.cause(),
            r.1.instance is None,
            r.1.invalid_params is None,
            r.1.supported_features is None,
    {
        let (status, title, detail, cause): (u16, &str, &String, Option<&str>) = match self {
            AppError::BadRequest(m) => (400, "Bad Request", m, None),
            AppError::NotFound(m) => (404, "Not Found", m, None),
            AppError::InternalServerError(m) => (500, "Internal Server Error", m, Some("SYSTEM_FAILURE")),
            AppError::ServiceUnavailable(m) => (503, "Service Unavailable", m, Some("SYSTEM_FAILURE")),
            AppError::Forbidden(m) => (403, "Forbidden", m, None),
            AppError::ConfigError(m) => (500, "Configuration Error", m, Some("SYSTEM_FAILURE")),
        };
        let details = ProblemDetails::new(status, title, detail.as_str());
        let details = match cause {
            Some(c) => details.with_cause(c),
            None => details,
        };
        (status, details)
    }
}

} // verus!
