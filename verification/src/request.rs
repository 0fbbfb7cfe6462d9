//! What a request must carry before a store is asked.
//!
//! The transport hands over what it read: the `Forwarded` header, the fields of the body,
//! the bearer credential. A request that fails here never reaches the store.

use vstd::prelude::*;
use crate::address::{client_address, spec_client_address, NetworkAddress};
use crate::error::{AuthError, ValidationError};
use crate::token::{parsed_uuid, Token};

verus! {

/// A refresh that passed validation: what the store is asked to rotate.
#[derive(Clone, Copy, Debug, PartialEq, Eq, Structural)]
pub struct RefreshRequest {
    /// The session to renew, from the bearer credential.
    pub session: Token,
    /// The refresh token presented, from the body.
    pub refresh: Token,
    /// The network the request came from.
    pub client: NetworkAddress,
}

/// The header of a request as a text, where it has one.
pub open spec fn header_text(forwarded: Option<&str>) -> Option<Seq<char>> {
    match forwarded {
        Some(header) => Some(header@),
        None => None,
    }
}

/// The network a login is to be bound to, or why the login request is unusable: first the
/// client address must be usable, then the username and then the password must not be
/// empty.
pub open spec fn spec_check_login(
    client: Result<NetworkAddress, AuthError>,
    username: Seq<char>,
    password: Seq<char>,
) -> Result<NetworkAddress, AuthError> {
    match client {
        Err(error) => Err(error),
        Ok(address) => if username.len() == 0 {
            Err(AuthError::Validation(ValidationError::EmptyUsername))
        } else if password.len() == 0 {
            Err(AuthError::Validation(ValidationError::EmptyPassword))
        } else {
            Ok(address)
        },
    }
}

/// The rotation a refresh request asks for, or why the request is unusable: first the
/// client address must be usable, then the bearer credential and then the refresh token of
/// the body must be tokens.
pub open spec fn spec_check_refresh(
    client: Result<NetworkAddress, AuthError>,
    session: Option<Token>,
    refresh: Option<Token>,
) -> Result<RefreshRequest, AuthError> {
    match client {
        Err(error) => Err(error),
        Ok(address) => match session {
            None => Err(AuthError::Validation(ValidationError::MalformedSessionToken)),
            Some(session) => match refresh {
                None => Err(AuthError::Validation(ValidationError::MalformedRefreshToken)),
                Some(refresh) => Ok(RefreshRequest { session, refresh, client: address }),
            },
        },
    }
}

/// Validates a login of which the client address has been extracted already.
pub fn check_login(client: Result<NetworkAddress, AuthError>, username: &str, password: &str) -> (checked:
    Result<NetworkAddress, AuthError>)
    ensures
        checked == spec_check_login(client, username@, password@),
{
    match client {
        Err(error) => Err(error),
        Ok(address) => if username.is_empty() {
            Err(AuthError::Validation(ValidationError::EmptyUsername))
        } else if password.is_empty() {
            Err(AuthError::Validation(ValidationError::EmptyPassword))
        } else {
            Ok(address)
        },
    }
}

/// Validates a refresh of which the address and the two tokens have been read already.
pub fn check_refresh(
    client: Result<NetworkAddress, AuthError>,
    session: Option<Token>,
    refresh: Option<Token>,
) -> (checked: Result<RefreshRequest, AuthError>)
    ensures
        checked == spec_check_refresh(client, session, refresh),
{
    match client {
        Err(error) => Err(error),
        Ok(address) => match session {
            None => Err(AuthError::Validation(ValidationError::MalformedSessionToken)),
            Some(session) => match refresh {
                None => Err(AuthError::Validation(ValidationError::MalformedRefreshToken)),
                Some(refresh) => Ok(RefreshRequest { session, refresh, client: address }),
            },
        },
    }
}

/// Validates a login request as the transport read it: the `Forwarded` header, where there
/// was one, and the two fields of the body. Returns the network to bind the session to.
pub fn login_request(forwarded: Option<&str>, username: &str, password: &str) -> (checked: Result<
    NetworkAddress,
    AuthError,
>)
    ensures
        checked == spec_check_login(
            spec_client_address(header_text(forwarded)),
            username@,
            password@,
        ),
        checked matches Ok(address) ==> address.wf(),
{
    check_login(client_address(forwarded), username, password)
}

/// Validates a refresh request as the transport read it: the `Forwarded` header, where
/// there was one, the bearer credential and the refresh token of the body.
pub fn refresh_request(forwarded: Option<&str>, bearer: &str, refresh_token: &str) -> (checked:
    Result<RefreshRequest, AuthError>)
    ensures
        checked == spec_check_refresh(
            spec_client_address(header_text(forwarded)),
            Token::spec_from_parsed(parsed_uuid(bearer@)),
            Token::spec_from_parsed(parsed_uuid(refresh_token@)),
        ),
        checked matches Ok(request) ==> request.client.wf(),
{
    check_refresh(client_address(forwarded), Token::parse(bearer), Token::parse(refresh_token))
}

} // verus!
