//! The error taxonomy of the service core, and its mapping to transport
//! status codes and response bodies.

use vstd::prelude::*;
use vstd::string::*;

verus! {

/// Every failure a core operation can report. Transports map these to
/// status codes via [`AppError::status_code`] and to response bodies via
/// [`AppError::error_response`].
#[derive(Debug, PartialEq, Eq)]
pub enum AppError {
    InternalServerError,
    BadRequest(String),
    Unauthorized,
    Forbidden,
    NotFound(String),
    Conflict(String),
    UnprocessableEntity(String),
    DatabaseError(String),
    ValidationError(String),
    JwtError,
    HashError,
}

pub type AppResult<T> = Result<T, AppError>;

/// The body returned to a client alongside an error status.
pub struct ErrorResponse {
    pub code: u16,
    pub error: String,
    pub message: String,
}

impl AppError {
    /// The HTTP status code for each error kind.
    pub open spec fn spec_status_code(&self) -> u16 {
        match self {
            AppError::InternalServerError => 500,
            AppError::BadRequest(_) => 400,
            AppError::Unauthorized => 401,
            AppError::Forbidden => 403,
            AppError::NotFound(_) => 404,
            AppError::Conflict(_) => 409,
            AppError::UnprocessableEntity(_) => 422,
            AppError::DatabaseError(_) => 500,
            AppError::ValidationError(_) => 400,
            AppError::JwtError => 401,
            AppError::HashError => 500,
        }
    }

    pub fn status_code(&self) -> (code: u16)
        ensures
            code == self.spec_status_code(),
    {
        match self {
            AppError::InternalServerError => 500,
            AppError::BadRequest(_) => 400,
            AppError::Unauthorized => 401,
            AppError::Forbidden => 403,
            AppError::NotFound(_) => 404,
            AppError::Conflict(_) => 409,
            AppError::UnprocessableEntity(_) => 422,
            AppError::DatabaseError(_) => 500,
            AppError::ValidationError(_) => 400,
            AppError::JwtError => 401,
            AppError::HashError => 500,
        }
    }

    /// The canonical status line for each error kind, as `"<code> <reason>"`.
    pub open spec fn spec_status_line(&self) -> Seq<char> {
        match self {
            AppError::InternalServerError => "500 Internal Server Error"@,
            AppError::BadRequest(_) => "400 Bad Request"@,
            AppError::Unauthorized => "401 Unauthorized"@,
            AppError::Forbidden => "403 Forbidden"@,
            AppError::NotFound(_) => "404 Not Found"@,
            AppError::Conflict(_) => "409 Conflict"@,
            AppError::UnprocessableEntity(_) => "422 Unprocessable Entity"@,
            AppError::DatabaseError(_) => "500 Internal Server Error"@,
            AppError::ValidationError(_) => "400 Bad Request"@,
            AppError::JwtError => "401 Unauthorized"@,
            AppError::HashError => "500 Internal Server Error"@,
        }
    }

    pub fn status_line(&self) -> (line: String)
        ensures
            line@ == self.spec_status_line(),
    {
        match self {
            AppError::InternalServerError => String::from_str("500 Internal Server Error"),
            AppError::BadRequest(_) => String::from_str("400 Bad Request"),
            AppError::Unauthorized => String::from_str("401 Unauthorized"),
            AppError::Forbidden => String::from_str("403 Forbidden"),
            AppError::NotFound(_) => String::from_str("404 Not Found"),
            AppError::Conflict(_) => String::from_str("409 Conflict"),
            AppError::UnprocessableEntity(_) => String::from_str("422 Unprocessable Entity"),
            AppError::DatabaseError(_) => String::from_str("500 Internal Server Error"),
            AppError::ValidationError(_) => String::from_str("400 Bad Request"),
            AppError::JwtError => String::from_str("401 Unauthorized"),
            AppError::HashError => String::from_str("500 Internal Server Error"),
        }
    }

    /// The human-readable message for each error kind; payload-carrying kinds
    /// append their detail after a fixed prefix.
    pub open spec fn spec_message(&self) -> Seq<char> {
        match self {
            AppError::InternalServerError => "Internal Server Error"@,
            AppError::BadRequest(s) => "Bad Request: "@ + s@,
            AppError::Unauthorized => "Unauthorized"@,
            AppError::Forbidden => "Forbidden"@,
            AppError::NotFound(s) => "Not Found: "@ + s@,
            AppError::Conflict(s) => "Conflict: "@ + s@,
            AppError::UnprocessableEntity(s) => "Unprocessable Entity: "@ + s@,
            AppError::DatabaseError(_) => "Database error"@,
            AppError::ValidationError(s) => "Validation error: "@ + s@,
            AppError::JwtError => "JWT error"@,
            AppError::HashError => "Hash error"@,
        }
    }

    pub fn message(&self) -> (msg: String)
        ensures
            msg@ == self.spec_message(),
    {
        match self {
            AppError::InternalServerError => String::from_str("Internal Server Error"),
            AppError::BadRequest(s) => String::from_str("Bad Request: ").concat(s.as_str()),
            AppError::Unauthorized => String::from_str("Unauthorized"),
            AppError::Forbidden => String::from_str("Forbidden"),
            AppError::NotFound(s) => String::from_str("Not Found: ").concat(s.as_str()),
            AppError::Conflict(s) => String::from_str("Conflict: ").concat(s.as_str()),
            AppError::UnprocessableEntity(s) => {
                String::from_str("Unprocessable Entity: ").concat(s.as_str())
            },
            AppError::DatabaseError(_) => String::from_str("Database error"),
            AppError::ValidationError(s) => {
                String::from_str("Validation error: ").concat(s.as_str())
            },
            AppError::JwtError => String::from_str("JWT error"),
            AppError::HashError => String::from_str("Hash error"),
        }
    }

    /// The RPC status code for each error kind, by the gRPC numbering:
    /// 3 invalid-argument, 5 not-found, 6 already-exists, 7
    /// permission-denied, 13 internal, 16 unauthenticated.
    pub open spec fn spec_grpc_code(&self) -> u32 {
        match self {
            AppError::InternalServerError => 13,
            AppError::BadRequest(_) => 3,
            AppError::Unauthorized => 16,
            AppError::Forbidden => 7,
            AppError::NotFound(_) => 5,
            AppError::Conflict(_) => 6,
            AppError::UnprocessableEntity(_) => 3,
            AppError::DatabaseError(_) => 13,
            AppError::ValidationError(_) => 3,
            AppError::JwtError => 16,
            AppError::HashError => 13,
        }
    }

    /// The message an RPC status carries: the payload for kinds that have
    /// one, a fixed redaction for store and credential internals, and the
    /// plain message otherwise.
    pub open spec fn spec_grpc_message(&self) -> Seq<char> {
        match self {
            AppError::BadRequest(s) => s@,
            AppError::NotFound(s) => s@,
            AppError::Conflict(s) => s@,
            AppError::UnprocessableEntity(s) => s@,
            AppError::ValidationError(s) => s@,
            AppError::DatabaseError(_) => "Database error"@,
            AppError::JwtError => "Invalid token"@,
            AppError::HashError => "Authentication error"@,
            _ => self.spec_message(),
        }
    }

    /// Map this error to the RPC status a server answers with.
    pub fn grpc_status(&self) -> (r: (u32, String))
        ensures
            r.0 == self.spec_grpc_code(),
            r.1@ == self.spec_grpc_message(),
    {
        let code = match self {
            AppError::InternalServerError => 13,
            AppError::BadRequest(_) => 3,
            AppError::Unauthorized => 16,
            AppError::Forbidden => 7,
            AppError::NotFound(_) => 5,
            AppError::Conflict(_) => 6,
            AppError::UnprocessableEntity(_) => 3,
            AppError::DatabaseError(_) => 13,
            AppError::ValidationError(_) => 3,
            AppError::JwtError => 16,
            AppError::HashError => 13,
        };
        let message = match self {
            AppError::BadRequest(s) => s.clone(),
            AppError::NotFound(s) => s.clone(),
            AppError::Conflict(s) => s.clone(),
            AppError::UnprocessableEntity(s) => s.clone(),
            AppError::ValidationError(s) => s.clone(),
            AppError::DatabaseError(_) => String::from_str("Database error"),
            AppError::JwtError => String::from_str("Invalid token"),
            AppError::HashError => String::from_str("Authentication error"),
            _ => self.message(),
        };
        (code, message)
    }

    /// The response body a transport sends for this error: the status code,
    /// the canonical status line, and the message.
    pub fn error_response(&self) -> (r: ErrorResponse)
        ensures
            r.code == self.spec_status_code(),
            r.error@ == self.spec_status_line(),
            r.message@ == self.spec_message(),
    {
        ErrorResponse {
            code: self.status_code(),
            error: self.status_line(),
            message: self.message(),
        }
    }
}

} // verus!
