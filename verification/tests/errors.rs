use toolport::errors::{AppError, DatabaseFailure, ErrorKind, ErrorResponse};

fn told(error: AppError) -> (u16, String, String) {
    let ErrorResponse { status, error, message } = error.into_response();
    (status, error, message)
}

fn s(text: &str) -> String {
    text.to_string()
}

#[test]
fn each_error_has_its_status_code_and_words() {
    assert_eq!(told(AppError::NotFound), (404, s("NOT_FOUND"), s("Resource not found")));
    assert_eq!(
        told(AppError::Validation(s("Quantity must be >= 1"))),
        (422, s("VALIDATION_ERROR"), s("Quantity must be >= 1"))
    );
    assert_eq!(
        told(AppError::StudentBanned),
        (400, s("STUDENT_BANNED"), s("Student is banned (5+ lost tools). Cannot issue tools."))
    );
    assert_eq!(
        told(AppError::InsufficientStock),
        (400, s("INSUFFICIENT_STOCK"), s("Insufficient stock available"))
    );
    assert_eq!(
        told(AppError::InvalidCredentials),
        (401, s("INVALID_CREDENTIALS"), s("Invalid credentials"))
    );
    assert_eq!(
        told(AppError::InvalidPassword),
        (400, s("INVALID_PASSWORD"), s("Current password is incorrect"))
    );
    assert_eq!(
        told(AppError::Unauthorized),
        (401, s("UNAUTHORIZED"), s("Unauthorized: missing or invalid token"))
    );
    assert_eq!(told(AppError::Conflict(s("taken"))), (409, s("CONFLICT"), s("taken")));
}

#[test]
fn storage_and_server_failures_give_nothing_away() {
    let failure = DatabaseFailure { code: Some(s("42P01")), detail: s("relation \"tools\" does not exist") };
    assert!(!failure.unique_violation());
    assert_eq!(
        told(AppError::Database(failure)),
        (500, s("DB_ERROR"), s("A database error occurred"))
    );
    let unknown = DatabaseFailure { code: None, detail: s("pool timed out") };
    assert_eq!(
        told(AppError::Database(unknown)),
        (500, s("DB_ERROR"), s("A database error occurred"))
    );
    assert_eq!(
        told(AppError::Internal(s("secret detail"))),
        (500, s("INTERNAL"), s("An internal server error occurred"))
    );
}

#[test]
fn a_unique_violation_is_a_conflict() {
    let failure = DatabaseFailure { code: Some(s("23505")), detail: s("duplicate key value") };
    assert!(failure.unique_violation());
    assert_eq!(
        told(AppError::Database(failure)),
        (409, s("CONFLICT"), s("A record with that value already exists"))
    );
    let near = DatabaseFailure { code: Some(s("23503")), detail: s("foreign key") };
    assert!(!near.unique_violation());
}

#[test]
fn errors_read_in_words() {
    assert_eq!(AppError::NotFound.to_string(), "Resource not found");
    assert_eq!(AppError::Validation(s("name required")).to_string(), "Validation error: name required");
    assert_eq!(AppError::Conflict(s("taken")).to_string(), "Conflict: taken");
    let failure = DatabaseFailure { code: None, detail: s("pool timed out") };
    assert_eq!(AppError::Database(failure).to_string(), "Database error: pool timed out");
    assert_eq!(AppError::Internal(s("boom")).to_string(), "Internal error: boom");
    assert_eq!(
        AppError::StudentBanned.to_string(),
        "Student is banned (5+ lost tools). Cannot issue tools."
    );
    assert_eq!(AppError::InsufficientStock.to_string(), "Insufficient stock available");
    assert_eq!(AppError::InvalidCredentials.to_string(), "Invalid credentials");
    assert_eq!(AppError::InvalidPassword.to_string(), "Current password is incorrect");
    assert_eq!(AppError::Unauthorized.to_string(), "Unauthorized: missing or invalid token");
}

#[test]
fn each_error_has_its_kind() {
    assert_eq!(AppError::NotFound.kind(), ErrorKind::NotFound);
    assert_eq!(AppError::Validation(s("x")).kind(), ErrorKind::Validation);
    assert_eq!(AppError::StudentBanned.kind(), ErrorKind::StudentBanned);
    assert_eq!(AppError::InsufficientStock.kind(), ErrorKind::InsufficientStock);
    assert_eq!(AppError::InvalidCredentials.kind(), ErrorKind::InvalidCredentials);
    assert_eq!(AppError::InvalidPassword.kind(), ErrorKind::InvalidPassword);
    assert_eq!(AppError::Unauthorized.kind(), ErrorKind::Unauthorized);
    assert_eq!(AppError::Conflict(s("x")).kind(), ErrorKind::Conflict);
    let failure = DatabaseFailure { code: None, detail: s("x") };
    assert_eq!(AppError::Database(failure).kind(), ErrorKind::Database);
    assert_eq!(AppError::Internal(s("x")).kind(), ErrorKind::Internal);
}
