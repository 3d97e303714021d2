use vstd::prelude::*;
use vstd::string::StringExecFns;

verus! {

/// The outcomes that the service reports to its callers as failures.
#[derive(Debug, Clone, Copy, PartialEq, Eq, Structural)]
pub enum AuthAPIError {
    UserAlreadyExists,
    InvalidCredentials,
    UnexpectedError,
    AuthenticationFailure,
    MissingToken,
    InvalidToken,
}

/// The body of a failure response.
#[derive(Debug, Clone)]
pub struct ErrorResponse {
    pub error: String,
}

/// The HTTP status of each failure.
pub open spec fn status_of(e: AuthAPIError) -> u16 {
    match e {
        AuthAPIError::UserAlreadyExists => 409,
        AuthAPIError::InvalidCredentials => 400,
        AuthAPIError::UnexpectedError => 500,
        AuthAPIError::AuthenticationFailure => 401,
        AuthAPIError::InvalidToken => 401,
        AuthAPIError::MissingToken => 400,
    }
}

/// The message of each failure.
pub open spec fn message_of(e: AuthAPIError) -> Seq<char> {
    match e {
        AuthAPIError::UserAlreadyExists => "User already exists"@,
        AuthAPIError::InvalidCredentials => "Invalid credentials"@,
        AuthAPIError::UnexpectedError => "Unexpected error"@,
        AuthAPIError::AuthenticationFailure => "Authentication failure"@,
        AuthAPIError::InvalidToken => "Invalid token"@,
        AuthAPIError::MissingToken => "Missing token"@,
    }
}

impl AuthAPIError {
    /// The HTTP status code that reports this failure.
    pub fn status_code(&self) -> (r: u16)
        ensures
            r == status_of(*self),
    {
        match self {
            AuthAPIError::UserAlreadyExists => 409,
            AuthAPIError::InvalidCredentials => 400,
            AuthAPIError::UnexpectedError => 500,
            AuthAPIError::AuthenticationFailure => 401,
            AuthAPIError::InvalidToken => 401,
            AuthAPIError::MissingToken => 400,
        }
    }

    /// The status code and the body that report this failure.
    pub fn to_response(&self) -> (r: (u16, ErrorResponse))
        ensures
            r.0 == status_of(*self),
            r.1.error@ == message_of(*self),
    {
        let message = match self {
            AuthAPIError::UserAlreadyExists => "User already exists",
            AuthAPIError::InvalidCredentials => "Invalid credentials",
            AuthAPIError::UnexpectedError => "Unexpected error",
            AuthAPIError::AuthenticationFailure => "Authentication failure",
            AuthAPIError::InvalidToken => "Invalid token",
            AuthAPIError::MissingToken => "Missing token",
        };
        (self.status_code(), ErrorResponse { error: String::from_str(message) })
    }
}

} // verus!
