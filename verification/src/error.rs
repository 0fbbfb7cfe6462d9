//! The failures a login or a refresh can end in, and how each is reported.

use vstd::prelude::*;

verus! {

/// Why a request was turned away before any store was asked.
#[derive(Clone, Copy, Debug, PartialEq, Eq, Structural)]
pub enum ValidationError {
    /// The request carried no `Forwarded` header.
    MissingForwarded,
    /// The `Forwarded` header is not of the form `<proto> <ip>`.
    MalformedForwarded,
    /// The address portion of the `Forwarded` header names no network address.
    MalformedAddress,
    /// The username is empty.
    EmptyUsername,
    /// The password is empty.
    EmptyPassword,
    /// The bearer credential is not a token in UUID form.
    MalformedSessionToken,
    /// The refresh token of the request body is not a token in UUID form.
    MalformedRefreshToken,
}

/// The kinds of failure that leave the core.
#[derive(Clone, Copy, Debug, PartialEq, Eq, Structural)]
pub enum AuthError {
    /// The request itself is unusable; no store was consulted.
    Validation(ValidationError),
    /// Login failed. Unknown user and wrong password are not told apart.
    InvalidCredentials,
    /// Refresh failed. Wrong token, consumed token and foreign network are not told apart.
    InvalidRefresh,
    /// The store could not be reached or failed in a way the protocol does not name.
    Internal,
}

impl AuthError {
    /// The HTTP status under which the failure is reported.
    pub open spec fn spec_status(self) -> u16 {
        match self {
            AuthError::Validation(_) => 400,
            AuthError::InvalidCredentials => 401,
            AuthError::InvalidRefresh => 401,
            AuthError::Internal => 500,
        }
    }

    /// The message under which the failure is reported. Each kind has one message, so that
    /// a caller cannot tell which check of a login or of a refresh failed; an internal
    /// failure is reported without its detail.
    pub open spec fn spec_message(self) -> Seq<char> {
        match self {
            AuthError::Validation(ValidationError::MissingForwarded) => "`Forwarded` header is missing"@,
            AuthError::Validation(ValidationError::MalformedForwarded) => "`Forwarded` header is malformed"@,
            AuthError::Validation(ValidationError::MalformedAddress) => "client address is malformed"@,
            AuthError::Validation(ValidationError::EmptyUsername) => "username is empty"@,
            AuthError::Validation(ValidationError::EmptyPassword) => "password is empty"@,
            AuthError::Validation(ValidationError::MalformedSessionToken) => "session token is malformed"@,
            AuthError::Validation(ValidationError::MalformedRefreshToken) => "refresh token is malformed"@,
            AuthError::InvalidCredentials => "incorrect username or password"@,
            AuthError::InvalidRefresh => "invalid refresh token"@,
            AuthError::Internal => "internal error"@,
        }
    }

    /// The message under which the failure is reported.
    pub fn message(self) -> (text: String)
        ensures
            text@ == self.spec_message(),
    {
        let text = match self {
            AuthError::Validation(ValidationError::MissingForwarded) => "`Forwarded` header is missing",
            AuthError::Validation(ValidationError::MalformedForwarded) => "`Forwarded` header is malformed",
            AuthError::Validation(ValidationError::MalformedAddress) => "client address is malformed",
            AuthError::Validation(ValidationError::EmptyUsername) => "username is empty",
            AuthError::Validation(ValidationError::EmptyPassword) => "password is empty",
            AuthError::Validation(ValidationError::MalformedSessionToken) => "session token is malformed",
            AuthError::Validation(ValidationError::MalformedRefreshToken) => "refresh token is malformed",
            AuthError::InvalidCredentials => "incorrect username or password",
            AuthError::InvalidRefresh => "invalid refresh token",
            AuthError::Internal => "internal error",
        };
        text.to_owned()
    }

    /// The HTTP status under which the failure is reported.
    #[verifier::when_used_as_spec(spec_status)]
    pub fn status(self) -> (code: u16)
        ensures
            code == self.spec_status(),
    {
        match self {
            AuthError::Validation(_) => 400,
            AuthError::InvalidCredentials => 401,
            AuthError::InvalidRefresh => 401,
            AuthError::Internal => 500,
        }
    }
}

} // verus!
