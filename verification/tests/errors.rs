use blog::errors::AppError;

#[test]
fn status_codes_follow_the_mapping() {
    assert_eq!(AppError::RecordAlreadyExists.status_code(), 400);
    assert_eq!(AppError::RecordNotFound.status_code(), 404);
    assert_eq!(AppError::DatabaseError(String::from("boom")).status_code(), 500);
    assert_eq!(AppError::OperationCanceled.status_code(), 500);
}

#[test]
fn messages_are_human_readable() {
    assert_eq!(
        AppError::RecordAlreadyExists.message(),
        "This Record violates a unique constraint"
    );
    assert_eq!(AppError::RecordNotFound.message(), "This record does not exist");
    // the diagnostic is rendered as Debug does: quoted
    assert_eq!(
        AppError::DatabaseError(String::from("disk on fire")).message(),
        "Database error: \"disk on fire\""
    );
    assert_eq!(AppError::OperationCanceled.message(), "The operation was cancelled");
}

#[test]
fn database_error_diagnostic_is_escaped() {
    // quotes and control characters in the diagnostic come out escaped
    assert_eq!(
        AppError::DatabaseError(String::from("a\"b")).message(),
        "Database error: \"a\\\"b\""
    );
    assert_eq!(
        AppError::DatabaseError(String::from("line\nbreak")).message(),
        "Database error: \"line\\nbreak\""
    );
}

#[test]
fn error_response_carries_status_and_message() {
    let (code, body) = AppError::RecordNotFound.error_response();
    assert_eq!(code, 404);
    assert_eq!(body.err, "This record does not exist");
    let (code, body) = AppError::RecordAlreadyExists.error_response();
    assert_eq!(code, 400);
    assert_eq!(body.err, "This Record violates a unique constraint");
    let (code, body) = AppError::DatabaseError(String::from("x")).error_response();
    assert_eq!(code, 500);
    assert_eq!(body.err, "Database error: \"x\"");
    let (code, body) = AppError::OperationCanceled.error_response();
    assert_eq!(code, 500);
    assert_eq!(body.err, "The operation was cancelled");
}
