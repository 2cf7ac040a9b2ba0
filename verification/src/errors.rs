use vstd::prelude::*;

verus! {

/// The database driver's error, carried through unchanged.
#[verifier::external_type_specification]
#[verifier::external_body]
pub struct ExSqlxError(sqlx::Error);

/// Central error type for all API handlers.
#[derive(Debug)]
pub enum AppError {
    /// Any database failure (connection, query, constraint, etc.)
    Database(sqlx::Error),
    /// The image request failed or returned something unusable
    ImageGeneration(String),
    /// Requested resource (e.g. a job id) doesn't exist
    NotFound(String),
    /// Bad credentials, missing/invalid token, etc.
    Auth(String),
    /// e.g. signup with an email that's already taken
    Conflict(String),
}

/// HTTP status code that answers an error of this kind.
pub open spec fn spec_status(e: AppError) -> u16 {
    match e {
        AppError::Database(_) => 500,
        AppError::ImageGeneration(_) => 502,
        AppError::NotFound(_) => 404,
        AppError::Auth(_) => 401,
        AppError::Conflict(_) => 409,
    }
}

/// Message that the client sees in the `error` field of the response body.
pub open spec fn spec_public_message(e: AppError) -> Seq<char> {
    match e {
        AppError::Database(_) => "internal server error"@,
        AppError::ImageGeneration(_) => "image generation failed"@,
        AppError::NotFound(what) => what@ + " not found"@,
        AppError::Auth(msg) => msg@,
        AppError::Conflict(msg) => msg@,
    }
}

/// Each kind of error has one status code, whatever its message: 500 for
/// database failures, 502 for image-generation failures, 404 for missing
/// resources, 401 for every authentication failure, 409 for conflicts.
pub proof fn lemma_status_depends_only_on_kind()
    ensures
        forall|e: sqlx::Error| #[trigger] spec_status(AppError::Database(e)) == 500,
        forall|m: String| #[trigger] spec_status(AppError::ImageGeneration(m)) == 502,
        forall|m: String| #[trigger] spec_status(AppError::NotFound(m)) == 404,
        forall|m: String| #[trigger] spec_status(AppError::Auth(m)) == 401,
        forall|m: String| #[trigger] spec_status(AppError::Conflict(m)) == 409,
{
}

/// What the client reads of each kind of error: database and image-generation
/// failures are not disclosed, a missing resource is named, and the message of
/// an authentication failure or a conflict is shown as it is.
pub proof fn lemma_public_message_by_kind()
    ensures
        forall|e: sqlx::Error| #[trigger]
            spec_public_message(AppError::Database(e)) == "internal server error"@,
        forall|m: String| #[trigger]
            spec_public_message(AppError::ImageGeneration(m)) == "image generation failed"@,
        forall|w: String| #[trigger] spec_public_message(AppError::NotFound(w)) == w@ + " not found"@,
        forall|m: String| #[trigger] spec_public_message(AppError::Auth(m)) == m@,
        forall|m: String| #[trigger] spec_public_message(AppError::Conflict(m)) == m@,
{
}

impl AppError {
    /// Status code of the HTTP response for this error.
    pub fn status_code(&self) -> (code: u16)
        ensures
            code == spec_status(*self),
            *self is Database ==> code == 500,
            *self is ImageGeneration ==> code == 502,
            *self is NotFound ==> code == 404,
            *self is Auth ==> code == 401,
            *self is Conflict ==> code == 409,
    {
        match self {
            AppError::Database(_) => 500,
            AppError::ImageGeneration(_) => 502,
            AppError::NotFound(_) => 404,
            AppError::Auth(_) => 401,
            AppError::Conflict(_) => 409,
        }
    }

    /// Message of the HTTP response body for this error; internal details of
    /// database and image-generation failures are not disclosed.
    pub fn public_message(&self) -> (msg: String)
        ensures
            msg@ == spec_public_message(*self),
    {
        match self {
            AppError::Database(_) => String::from_str("internal server error"),
            AppError::ImageGeneration(_) => String::from_str("image generation failed"),
            AppError::NotFound(what) => what.clone().concat(" not found"),
            AppError::Auth(msg) => msg.clone(),
            AppError::Conflict(msg) => msg.clone(),
        }
    }
}

impl From<sqlx::Error> for AppError {
    fn from(e: sqlx::Error) -> (r: Self) {
        AppError::Database(e)
    }
}

impl vstd::std_specs::convert::FromSpecImpl<sqlx::Error> for AppError {
    open spec fn obeys_from_spec() -> bool {
        true
    }

    open spec fn from_spec(e: sqlx::Error) -> Self {
        AppError::Database(e)
    }
}

} // verus!
