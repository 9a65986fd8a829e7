use vstd::prelude::*;

verus! {

/// The error type of the database driver; opaque here, carried through.
#[verifier::external_type_specification]
#[verifier::external_body]
pub struct ExDatabaseError(sqlx::Error);

/// The error type of the template engine; opaque here, carried through.
#[verifier::external_type_specification]
#[verifier::external_body]
pub struct ExTemplateError(askama::Error);

/// The error type of the token library; opaque here, carried through.
#[verifier::external_type_specification]
#[verifier::external_body]
pub struct ExTokenError(jwt_simple::Error);

/// Everything a request can fail with.
#[derive(Debug)]
pub enum AppError {
    MissingAuthorization,
    InvalidCredentials,
    AssetDoesNotExist,
    UserDoesNotExist,
    UsernameTaken,
    Database(sqlx::Error),
    Template(askama::Error),
    Jwt(jwt_simple::Error),
}

/// The JSON body sent with an error status.
pub struct ErrorResponse {
    pub error: String,
}

/// The HTTP status that answers each kind of failure.
pub open spec fn spec_status_code(e: &AppError) -> u16 {
    match e {
        AppError::UsernameTaken | AppError::MissingAuthorization => 400,
        AppError::InvalidCredentials => 401,
        AppError::AssetDoesNotExist | AppError::UserDoesNotExist => 404,
        AppError::Database(_) | AppError::Template(_) | AppError::Jwt(_) => 500,
    }
}

/// The message of each failure the service raises itself; the wrapped
/// failures of outside libraries carry the message of the wrapped error.
pub open spec fn spec_own_message(e: &AppError) -> Option<Seq<char>> {
    match e {
        AppError::MissingAuthorization => Some("Missing authorization header"@),
        AppError::InvalidCredentials => Some("Invalid credentials"@),
        AppError::AssetDoesNotExist => Some("Asset does not exist"@),
        AppError::UserDoesNotExist => Some("User dows not exist"@),
        AppError::UsernameTaken => Some("This username is already registered"@),
        _ => None,
    }
}

/// `Display` of `sqlx::Error`. Nothing is stated of the text: it is the
/// driver's description of a failure that only it can see.
#[verifier::external_body]
fn database_error_text(e: &sqlx::Error) -> String {
    e.to_string()
}

/// `Display` of `askama::Error`. Nothing is stated of the text.
#[verifier::external_body]
fn template_error_text(e: &askama::Error) -> String {
    e.to_string()
}

/// `Display` of `jwt_simple::Error` (an `anyhow::Error`). Nothing is stated
/// of the text.
#[verifier::external_body]
fn token_error_text(e: &jwt_simple::Error) -> String {
    e.to_string()
}

impl AppError {
    /// The HTTP status code of this failure.
    pub fn status_code(&self) -> (code: u16)
        ensures
            code == spec_status_code(self),
    {
        match self {
            AppError::UsernameTaken | AppError::MissingAuthorization => 400,
            AppError::InvalidCredentials => 401,
            AppError::AssetDoesNotExist | AppError::UserDoesNotExist => 404,
            AppError::Database(_) | AppError::Template(_) | AppError::Jwt(_) => 500,
        }
    }

    /// The human-readable message of this failure.
    pub fn message(&self) -> (text: String)
        ensures
            spec_own_message(self) matches Some(m) ==> text@ == m,
    {
        match self {
            AppError::MissingAuthorization => String::from_str("Missing authorization header"),
            AppError::InvalidCredentials => String::from_str("Invalid credentials"),
            AppError::AssetDoesNotExist => String::from_str("Asset does not exist"),
            AppError::UserDoesNotExist => String::from_str("User dows not exist"),
            AppError::UsernameTaken => String::from_str("This username is already registered"),
            AppError::Database(e) => database_error_text(e),
            AppError::Template(e) => template_error_text(e),
            AppError::Jwt(e) => token_error_text(e),
        }
    }

    /// The response to a failed request: its status and its JSON body.
    pub fn error_response(&self) -> (r: (u16, ErrorResponse))
        ensures
            r.0 == spec_status_code(self),
            spec_own_message(self) matches Some(m) ==> r.1.error@ == m,
    {
        let error_response = ErrorResponse { error: self.message() };
        (self.status_code(), error_response)
    }
}

} // verus!
