//! What an answer of an outside store means.
//!
//! A gateway that keeps its sessions in a database calls two procedures there, one to log
//! in and one to rotate a refresh token, and hands what came back to the functions here.

use vstd::prelude::*;
use crate::error::AuthError;
use crate::session::TokenPair;
use crate::text::text_eq;
use crate::token::{parsed_uuid, Token};

verus! {

/// How a call to the store failed, as the driver reports it.
pub enum StoreFault {
    /// The store answered with an error of its own.
    Database {
        /// The five-character code of the error, where the store gave one.
        code: Option<String>,
        /// The message of the error.
        message: String,
    },
    /// The store could not be reached, or the call failed in another way.
    Other,
}

/// How a call to the store failed, as a mathematical value.
pub enum StoreFaultView {
    Database { code: Option<Seq<char>>, message: Seq<char> },
    Other,
}

impl View for StoreFault {
    type V = StoreFaultView;

    open spec fn view(&self) -> StoreFaultView {
        match self {
            StoreFault::Database { code, message } => StoreFaultView::Database {
                code: match code {
                    Some(code) => Some(code@),
                    None => None,
                },
                message: message@,
            },
            StoreFault::Other => StoreFaultView::Other,
        }
    }
}

/// The code under which a procedure of the store raises an error of its own making, as
/// opposed to the codes of failed transactions, broken constraints and the like.
pub open spec fn spec_raised_code() -> Seq<char> {
    "P0001"@
}

/// The message with which the login procedure refuses credentials.
pub open spec fn spec_login_refusal() -> Seq<char> {
    "incorrect username or password"@
}

/// What a failed login call means: refused credentials where the store said so in these
/// words, and an internal failure otherwise.
pub open spec fn spec_login_fault(fault: StoreFaultView) -> AuthError {
    match fault {
        StoreFaultView::Database { code, message } => if message == spec_login_refusal() {
            AuthError::InvalidCredentials
        } else {
            AuthError::Internal
        },
        StoreFaultView::Other => AuthError::Internal,
    }
}

/// What a failed rotation call means: a refusal where the rotation procedure itself
/// raised the error, which its code tells, and an internal failure for every other error
/// of the store and where the store could not be reached.
pub open spec fn spec_refresh_fault(fault: StoreFaultView) -> AuthError {
    match fault {
        StoreFaultView::Database { code: Some(code), message } => if code == spec_raised_code() {
            AuthError::InvalidRefresh
        } else {
            AuthError::Internal
        },
        _ => AuthError::Internal,
    }
}

/// The pair that the row of a login holds: both columns must hold a token; a row that does
/// not is an internal failure.
pub open spec fn spec_issued_pair(session: Option<Token>, refresh: Option<Token>) -> Result<
    TokenPair,
    AuthError,
> {
    match (session, refresh) {
        (Some(session), Some(refresh)) => Ok(TokenPair { session, refresh }),
        _ => Err(AuthError::Internal),
    }
}

/// The replacement that the row of a rotation holds: a row without one is a refusal.
pub open spec fn spec_rotated_token(replacement: Option<Token>) -> Result<Token, AuthError> {
    match replacement {
        Some(fresh) => Ok(fresh),
        None => Err(AuthError::InvalidRefresh),
    }
}

/// The token that a column of text holds, where it holds one.
pub open spec fn spec_column_token(column: Option<Seq<char>>) -> Option<Token> {
    match column {
        Some(text) => Token::spec_from_parsed(parsed_uuid(text)),
        None => None,
    }
}

/// What a failed login call means.
pub fn login_fault(fault: &StoreFault) -> (error: AuthError)
    ensures
        error == spec_login_fault(fault@),
{
    match fault {
        StoreFault::Database { code: _, message } => if text_eq(
            message.as_str(),
            "incorrect username or password",
        ) {
            AuthError::InvalidCredentials
        } else {
            AuthError::Internal
        },
        StoreFault::Other => AuthError::Internal,
    }
}

/// What a failed rotation call means.
pub fn refresh_fault(fault: &StoreFault) -> (error: AuthError)
    ensures
        error == spec_refresh_fault(fault@),
{
    match fault {
        StoreFault::Database { code: Some(code), message: _ } => if text_eq(
            code.as_str(),
            "P0001",
        ) {
            AuthError::InvalidRefresh
        } else {
            AuthError::Internal
        },
        _ => AuthError::Internal,
    }
}

/// The pair that the row of a login holds, from its two columns as tokens.
pub fn issued_pair(session: Option<Token>, refresh: Option<Token>) -> (pair: Result<
    TokenPair,
    AuthError,
>)
    ensures
        pair == spec_issued_pair(session, refresh),
{
    match (session, refresh) {
        (Some(session), Some(refresh)) => Ok(TokenPair { session, refresh }),
        _ => Err(AuthError::Internal),
    }
}

/// The replacement that the row of a rotation holds.
pub fn rotated_token(replacement: Option<Token>) -> (fresh: Result<Token, AuthError>)
    ensures
        fresh == spec_rotated_token(replacement),
{
    match replacement {
        Some(fresh) => Ok(fresh),
        None => Err(AuthError::InvalidRefresh),
    }
}

/// The token that a column of text holds, where it holds one.
pub fn column_token(column: Option<&str>) -> (token: Option<Token>)
    ensures
        token == spec_column_token(
            match column {
                Some(text) => Some(text@),
                None => None,
            },
        ),
{
    match column {
        Some(text) => Token::parse(text),
        None => None,
    }
}

/// The outcome of a login from the answer of the store: the row with its two columns of
/// text, either of which may be missing, or the fault.
pub fn login_outcome(answer: Result<(Option<&str>, Option<&str>), StoreFault>) -> (outcome: Result<
    TokenPair,
    AuthError,
>)
    ensures
        outcome == match answer {
            Ok((session, refresh)) => spec_issued_pair(
                spec_column_token(
                    match session {
                        Some(text) => Some(text@),
                        None => None,
                    },
                ),
                spec_column_token(
                    match refresh {
                        Some(text) => Some(text@),
                        None => None,
                    },
                ),
            ),
            Err(fault) => Err(spec_login_fault(fault@)),
        },
{
    match answer {
        Ok((session, refresh)) => issued_pair(column_token(session), column_token(refresh)),
        Err(fault) => Err(login_fault(&fault)),
    }
}

/// The outcome of a rotation from the answer of the store: the replacement, which may be
/// missing, or the fault.
pub fn refresh_outcome(answer: Result<Option<Token>, StoreFault>) -> (outcome: Result<
    Token,
    AuthError,
>)
    ensures
        outcome == match answer {
            Ok(replacement) => spec_rotated_token(replacement),
            Err(fault) => Err(spec_refresh_fault(fault@)),
        },
{
    match answer {
        Ok(replacement) => rotated_token(replacement),
        Err(fault) => Err(refresh_fault(&fault)),
    }
}

} // verus!
