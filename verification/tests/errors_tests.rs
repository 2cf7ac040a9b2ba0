use imagegen::errors::AppError;

#[test]
fn database_errors_are_hidden() {
    let e = AppError::from(sqlx::Error::RowNotFound);
    assert!(matches!(e, AppError::Database(_)));
    assert_eq!(e.status_code(), 500);
    assert_eq!(e.public_message(), "internal server error");
}

#[test]
fn image_generation_errors_are_hidden() {
    let e = AppError::ImageGeneration("quota exceeded".to_string());
    assert_eq!(e.status_code(), 502);
    assert_eq!(e.public_message(), "image generation failed");
}

#[test]
fn not_found_names_the_resource() {
    let e = AppError::NotFound("job".to_string());
    assert_eq!(e.status_code(), 404);
    assert_eq!(e.public_message(), "job not found");
}

#[test]
fn auth_and_conflict_messages_are_shown() {
    let e = AppError::Auth("invalid email or password".to_string());
    assert_eq!(e.status_code(), 401);
    assert_eq!(e.public_message(), "invalid email or password");
    let e = AppError::Conflict("email already registered".to_string());
    assert_eq!(e.status_code(), 409);
    assert_eq!(e.public_message(), "email already registered");
}
