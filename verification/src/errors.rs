//! The API's error type and how each kind of error is answered.

use vstd::prelude::*;
use crate::text::concatenate;

verus! {

/// An error that a request handler answers with an HTTP error response.
pub enum AppError {
    NotFound(String),
    Conflict(String),
    BadRequest(String),
    InternalError(String),
    ValidationError(String),
    Unauthorized(String),
}

/// The parts of the JSON body that answers an error: `message`, `error` and `statusCode`.
pub struct ErrorBody {
    pub status: u16,
    pub message: String,
    pub error: String,
}

impl AppError {
    /// The message the error carries.
    pub open spec fn message_of(&self) -> String {
        match self {
            AppError::NotFound(m) => *m,
            AppError::Conflict(m) => *m,
            AppError::BadRequest(m) => *m,
            AppError::InternalError(m) => *m,
            AppError::ValidationError(m) => *m,
            AppError::Unauthorized(m) => *m,
        }
    }

    /// The HTTP status that answers the error.
    pub open spec fn status_of(&self) -> u16 {
        match self {
            AppError::NotFound(_) => 404,
            AppError::Conflict(_) => 409,
            AppError::BadRequest(_) => 400,
            AppError::InternalError(_) => 500,
            AppError::ValidationError(_) => 400,
            AppError::Unauthorized(_) => 401,
        }
    }

    /// The `error` field of the answer: the name of the kind of error.
    pub open spec fn kind_of(&self) -> Seq<char> {
        match self {
            AppError::NotFound(_) => "Not Found"@,
            AppError::Conflict(_) => "Conflict"@,
            AppError::BadRequest(_) => "Bad Request"@,
            AppError::InternalError(_) => "Internal Server Error"@,
            AppError::ValidationError(_) => "Validation Error"@,
            AppError::Unauthorized(_) => "Unauthorized"@,
        }
    }

    /// The prefix of the error's text form.
    pub open spec fn label_of(&self) -> Seq<char> {
        match self {
            AppError::NotFound(_) => "Not found: "@,
            AppError::Conflict(_) => "Conflict: "@,
            AppError::BadRequest(_) => "Bad request: "@,
            AppError::InternalError(_) => "Internal error: "@,
            AppError::ValidationError(_) => "Validation error: "@,
            AppError::Unauthorized(_) => "Unauthorized: "@,
        }
    }

    /// The HTTP status that answers this error.
    pub fn status_code(&self) -> (r: u16)
        ensures
            r == self.status_of(),
    {
        match self {
            AppError::NotFound(_) => 404,
            AppError::Conflict(_) => 409,
            AppError::BadRequest(_) => 400,
            AppError::InternalError(_) => 500,
            AppError::ValidationError(_) => 400,
            AppError::Unauthorized(_) => 401,
        }
    }

    /// The name of the kind of error, as the `error` field of the answer shows it.
    pub fn error_type(&self) -> (r: String)
        ensures
            r@ == self.kind_of(),
    {
        match self {
            AppError::NotFound(_) => String::from_str("Not Found"),
            AppError::Conflict(_) => String::from_str("Conflict"),
            AppError::BadRequest(_) => String::from_str("Bad Request"),
            AppError::InternalError(_) => String::from_str("Internal Server Error"),
            AppError::ValidationError(_) => String::from_str("Validation Error"),
            AppError::Unauthorized(_) => String::from_str("Unauthorized"),
        }
    }

    /// The error as text, e.g. `"Not found: user 3"`.
    pub fn to_display_string(&self) -> (r: String)
        ensures
            r@ == self.label_of() + self.message_of()@,
    {
        match self {
            AppError::NotFound(m) => concatenate("Not found: ", m.as_str()),
            AppError::Conflict(m) => concatenate("Conflict: ", m.as_str()),
            AppError::BadRequest(m) => concatenate("Bad request: ", m.as_str()),
            AppError::InternalError(m) => concatenate("Internal error: ", m.as_str()),
            AppError::ValidationError(m) => concatenate("Validation error: ", m.as_str()),
            AppError::Unauthorized(m) => concatenate("Unauthorized: ", m.as_str()),
        }
    }

    /// The answer to the error: its status, its message and the name of its kind.
    pub fn into_response(self) -> (r: ErrorBody)
        ensures
            r.status == self.status_of(),
            r.message == self.message_of(),
            r.error@ == self.kind_of(),
    {
        let status = self.status_code();
        let error = self.error_type();
        let message = match self {
            AppError::NotFound(m) => m,
            AppError::Conflict(m) => m,
            AppError::BadRequest(m) => m,
            AppError::InternalError(m) => m,
            AppError::ValidationError(m) => m,
            AppError::Unauthorized(m) => m,
        };
        ErrorBody { status, message, error }
    }
}

/// Each kind of error is answered with its HTTP meaning: a missing resource 404, a conflict
/// 409, a bad or invalid request 400, a refused client 401, a failure of the server 500;
/// only the server's own failures are answered with a 5xx status, and the answer carries
/// the error's message unchanged.
pub proof fn lemma_error_statuses(e: AppError)
    ensures
        e is NotFound <==> e.status_of() == 404,
        e is Conflict <==> e.status_of() == 409,
        (e is BadRequest || e is ValidationError) <==> e.status_of() == 400,
        e is Unauthorized <==> e.status_of() == 401,
        e is InternalError <==> e.status_of() >= 500,
        400 <= e.status_of() < 600,
        e.message_of() == match e {
            AppError::NotFound(m) => m,
            AppError::Conflict(m) => m,
            AppError::BadRequest(m) => m,
            AppError::InternalError(m) => m,
            AppError::ValidationError(m) => m,
            AppError::Unauthorized(m) => m,
        },
{
}

} // verus!
