//! The errors an operation can end in, and what a caller is told of each.

use vstd::prelude::*;
use vstd::string::StringExecFns;
use crate::text::text_eq;

verus! {

/// What is kept of a failure of the storage layer.
#[derive(Debug, PartialEq, Eq)]
pub struct DatabaseFailure {
    /// The five-character state code, where the database itself reported
    /// the failure.
    pub code: Option<String>,
    /// The failure in words, for the server's own log.
    pub detail: String,
}

impl DatabaseFailure {
    /// The database refused a row because a unique column already holds the
    /// value (state code 23505).
    pub open spec fn is_unique_violation(&self) -> bool {
        self.code matches Some(code) && code@ == "23505"@
    }

    pub fn unique_violation(&self) -> (found: bool)
        ensures
            found == self.is_unique_violation(),
    {
        match &self.code {
            Some(code) => text_eq(code.as_str(), "23505"),
            None => false,
        }
    }
}

/// An error without the text it carries.
#[derive(Debug, Clone, Copy, PartialEq, Eq, Structural)]
pub enum ErrorKind {
    NotFound,
    Validation,
    StudentBanned,
    InsufficientStock,
    InvalidCredentials,
    InvalidPassword,
    Unauthorized,
    Conflict,
    Database,
    Internal,
}

/// Every way an operation of this crate can fail.
#[derive(Debug, PartialEq, Eq)]
pub enum AppError {
    /// The row asked for is absent, or not in the state the operation needs.
    NotFound,
    /// The input is malformed; the text says how.
    Validation(String),
    StudentBanned,
    InsufficientStock,
    InvalidCredentials,
    InvalidPassword,
    Unauthorized,
    Conflict(String),
    Database(DatabaseFailure),
    Internal(String),
}

/// What a caller is told of an error: a status code and a two-field body.
#[derive(Debug, PartialEq, Eq)]
pub struct ErrorResponse {
    pub status: u16,
    pub error: String,
    pub message: String,
}

impl AppError {
    pub open spec fn spec_kind(&self) -> ErrorKind {
        match self {
            AppError::NotFound => ErrorKind::NotFound,
            AppError::Validation(_) => ErrorKind::Validation,
            AppError::StudentBanned => ErrorKind::StudentBanned,
            AppError::InsufficientStock => ErrorKind::InsufficientStock,
            AppError::InvalidCredentials => ErrorKind::InvalidCredentials,
            AppError::InvalidPassword => ErrorKind::InvalidPassword,
            AppError::Unauthorized => ErrorKind::Unauthorized,
            AppError::Conflict(_) => ErrorKind::Conflict,
            AppError::Database(_) => ErrorKind::Database,
            AppError::Internal(_) => ErrorKind::Internal,
        }
    }

    #[verifier::when_used_as_spec(spec_kind)]
    pub fn kind(&self) -> (kind: ErrorKind)
        ensures
            kind == self.spec_kind(),
    {
        match self {
            AppError::NotFound => ErrorKind::NotFound,
            AppError::Validation(_) => ErrorKind::Validation,
            AppError::StudentBanned => ErrorKind::StudentBanned,
            AppError::InsufficientStock => ErrorKind::InsufficientStock,
            AppError::InvalidCredentials => ErrorKind::InvalidCredentials,
            AppError::InvalidPassword => ErrorKind::InvalidPassword,
            AppError::Unauthorized => ErrorKind::Unauthorized,
            AppError::Conflict(_) => ErrorKind::Conflict,
            AppError::Database(_) => ErrorKind::Database,
            AppError::Internal(_) => ErrorKind::Internal,
        }
    }

    /// The error in words, with the text it carries.
    pub open spec fn display(&self) -> Seq<char> {
        match self {
            AppError::NotFound => "Resource not found"@,
            AppError::Validation(m) => "Validation error: "@ + m@,
            AppError::StudentBanned => "Student is banned (5+ lost tools). Cannot issue tools."@,
            AppError::InsufficientStock => "Insufficient stock available"@,
            AppError::InvalidCredentials => "Invalid credentials"@,
            AppError::InvalidPassword => "Current password is incorrect"@,
            AppError::Unauthorized => "Unauthorized: missing or invalid token"@,
            AppError::Conflict(m) => "Conflict: "@ + m@,
            AppError::Database(f) => "Database error: "@ + f.detail@,
            AppError::Internal(m) => "Internal error: "@ + m@,
        }
    }

    /// The status code a caller gets.
    pub open spec fn http_status(&self) -> int {
        match self {
            AppError::NotFound => 404,
            AppError::Validation(_) => 422,
            AppError::StudentBanned => 400,
            AppError::InsufficientStock => 400,
            AppError::InvalidCredentials => 401,
            AppError::InvalidPassword => 400,
            AppError::Unauthorized => 401,
            AppError::Conflict(_) => 409,
            AppError::Database(f) => if f.is_unique_violation() { 409 } else { 500 },
            AppError::Internal(_) => 500,
        }
    }

    /// The short code a caller gets.
    pub open spec fn error_code(&self) -> Seq<char> {
        match self {
            AppError::NotFound => "NOT_FOUND"@,
            AppError::Validation(_) => "VALIDATION_ERROR"@,
            AppError::StudentBanned => "STUDENT_BANNED"@,
            AppError::InsufficientStock => "INSUFFICIENT_STOCK"@,
            AppError::InvalidCredentials => "INVALID_CREDENTIALS"@,
            AppError::InvalidPassword => "INVALID_PASSWORD"@,
            AppError::Unauthorized => "UNAUTHORIZED"@,
            AppError::Conflict(_) => "CONFLICT"@,
            AppError::Database(f) => if f.is_unique_violation() {
                "CONFLICT"@
            } else {
                "DB_ERROR"@
            },
            AppError::Internal(_) => "INTERNAL"@,
        }
    }

    /// The sentence a caller gets. For a failure of storage or of the server
    /// itself it is a fixed sentence that gives nothing of the detail away.
    pub open spec fn public_message(&self) -> Seq<char> {
        match self {
            AppError::Validation(m) => m@,
            AppError::Conflict(m) => m@,
            AppError::Database(f) => if f.is_unique_violation() {
                "A record with that value already exists"@
            } else {
                "A database error occurred"@
            },
            AppError::Internal(_) => "An internal server error occurred"@,
            _ => self.display(),
        }
    }

    pub fn to_string(&self) -> (text: String)
        ensures
            text@ == self.display(),
    {
        match self {
            AppError::NotFound => "Resource not found".to_owned(),
            AppError::Validation(m) => "Validation error: ".to_owned().concat(m.as_str()),
            AppError::StudentBanned => {
                "Student is banned (5+ lost tools). Cannot issue tools.".to_owned()
            },
            AppError::InsufficientStock => "Insufficient stock available".to_owned(),
            AppError::InvalidCredentials => "Invalid credentials".to_owned(),
            AppError::InvalidPassword => "Current password is incorrect".to_owned(),
            AppError::Unauthorized => "Unauthorized: missing or invalid token".to_owned(),
            AppError::Conflict(m) => "Conflict: ".to_owned().concat(m.as_str()),
            AppError::Database(f) => "Database error: ".to_owned().concat(f.detail.as_str()),
            AppError::Internal(m) => "Internal error: ".to_owned().concat(m.as_str()),
        }
    }

    /// Turns the error into what the caller is told.
    pub fn into_response(self) -> (response: ErrorResponse)
        ensures
            response.status == self.http_status(),
            response.error@ == self.error_code(),
            response.message@ == self.public_message(),
    {
        let message: String = match &self {
            AppError::Validation(m) => m.clone(),
            AppError::Conflict(m) => m.clone(),
            AppError::Database(f) => {
                if f.unique_violation() {
                    "A record with that value already exists".to_owned()
                } else {
                    "A database error occurred".to_owned()
                }
            },
            AppError::Internal(_) => "An internal server error occurred".to_owned(),
            _ => self.to_string(),
        };
        let (status, code): (u16, &'static str) = match &self {
            AppError::NotFound => (404, "NOT_FOUND"),
            AppError::Validation(_) => (422, "VALIDATION_ERROR"),
            AppError::StudentBanned => (400, "STUDENT_BANNED"),
            AppError::InsufficientStock => (400, "INSUFFICIENT_STOCK"),
            AppError::InvalidCredentials => (401, "INVALID_CREDENTIALS"),
            AppError::InvalidPassword => (400, "INVALID_PASSWORD"),
            AppError::Unauthorized => (401, "UNAUTHORIZED"),
            AppError::Conflict(_) => (409, "CONFLICT"),
            AppError::Database(f) => {
                if f.unique_violation() {
                    (409, "CONFLICT")
                } else {
                    (500, "DB_ERROR")
                }
            },
            AppError::Internal(_) => (500, "INTERNAL"),
        };
        ErrorResponse { status, error: code.to_owned(), message }
    }
}

} // verus!
