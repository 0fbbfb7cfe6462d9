//! What the transport is to send back: a status, cookies to set, and a status envelope.

use vstd::prelude::*;
use crate::error::AuthError;
use crate::session::TokenPair;
use crate::token::{uuid_text, Token};

verus! {

/// A cookie for the transport to set. Token cookies are `Secure` and `HttpOnly`.
pub struct Cookie {
    pub name: String,
    pub value: String,
    pub path: String,
    pub secure: bool,
    pub http_only: bool,
}

/// A cookie as a mathematical value.
pub struct CookieView {
    pub name: Seq<char>,
    pub value: Seq<char>,
    pub path: Seq<char>,
    pub secure: bool,
    pub http_only: bool,
}

impl View for Cookie {
    type V = CookieView;

    open spec fn view(&self) -> CookieView {
        CookieView {
            name: self.name@,
            value: self.value@,
            path: self.path@,
            secure: self.secure,
            http_only: self.http_only,
        }
    }
}

/// The body of every reply: the status once more, and a message.
pub struct Envelope {
    pub status: u16,
    pub message: String,
}

/// A reply for the transport to send.
pub struct Reply {
    /// The HTTP status.
    pub status: u16,
    /// The cookies to set, in this order.
    pub cookies: Vec<Cookie>,
    /// The body.
    pub body: Envelope,
}

/// A reply as a mathematical value.
pub struct ReplyView {
    pub status: u16,
    pub cookies: Seq<CookieView>,
    pub body_status: u16,
    pub message: Seq<char>,
}

impl View for Reply {
    type V = ReplyView;

    open spec fn view(&self) -> ReplyView {
        ReplyView {
            status: self.status,
            cookies: Seq::new(self.cookies@.len(), |i: int| self.cookies@[i]@),
            body_status: self.body.status,
            message: self.body.message@,
        }
    }
}

/// The path that every token cookie is scoped to: the root of the API.
pub open spec fn spec_api_root() -> Seq<char> {
    "/api/"@
}

/// The name of the cookie that carries the session token.
pub open spec fn spec_session_cookie_name() -> Seq<char> {
    "X-Session-Token"@
}

/// The name of the cookie that carries the refresh token.
pub open spec fn spec_refresh_cookie_name() -> Seq<char> {
    "X-Refresh-Token"@
}

/// The cookie that carries a session token.
pub open spec fn spec_session_cookie(value: Seq<char>) -> CookieView {
    CookieView {
        name: spec_session_cookie_name(),
        value,
        path: spec_api_root(),
        secure: true,
        http_only: true,
    }
}

/// The cookie that carries a refresh token, after a login and after a rotation alike, so
/// that the cookie of a rotation takes the place of the one before it.
pub open spec fn spec_refresh_cookie(value: Seq<char>) -> CookieView {
    CookieView {
        name: spec_refresh_cookie_name(),
        value,
        path: spec_api_root(),
        secure: true,
        http_only: true,
    }
}

/// The reply to a request that succeeded: status 200 with the given cookies.
pub open spec fn spec_success(cookies: Seq<CookieView>) -> ReplyView {
    ReplyView { status: 200, cookies, body_status: 200, message: "Success!"@ }
}

/// The reply to a request that failed: the status and the message of the error, and no
/// cookie.
pub open spec fn spec_failure(error: AuthError) -> ReplyView {
    ReplyView {
        status: error.spec_status(),
        cookies: Seq::empty(),
        body_status: error.spec_status(),
        message: error.spec_message(),
    }
}

/// The reply to a login: on success the session cookie and then the refresh cookie, each
/// with its token in canonical form.
pub open spec fn spec_login_reply(outcome: Result<TokenPair, AuthError>) -> ReplyView {
    match outcome {
        Ok(pair) => spec_success(
            seq![
                spec_session_cookie(uuid_text(pair.session.value)),
                spec_refresh_cookie(uuid_text(pair.refresh.value)),
            ],
        ),
        Err(error) => spec_failure(error),
    }
}

/// The reply to a refresh: on success the one refresh cookie with the replacement in
/// canonical form. The session cookie is not set again.
pub open spec fn spec_refresh_reply(outcome: Result<Token, AuthError>) -> ReplyView {
    match outcome {
        Ok(fresh) => spec_success(seq![spec_refresh_cookie(uuid_text(fresh.value))]),
        Err(error) => spec_failure(error),
    }
}

/// The cookie that carries a session token.
pub fn session_cookie(value: String) -> (cookie: Cookie)
    ensures
        cookie@ == spec_session_cookie(value@),
{
    Cookie {
        name: "X-Session-Token".to_owned(),
        value,
        path: "/api/".to_owned(),
        secure: true,
        http_only: true,
    }
}

/// The cookie that carries a refresh token.
pub fn refresh_cookie(value: String) -> (cookie: Cookie)
    ensures
        cookie@ == spec_refresh_cookie(value@),
{
    Cookie {
        name: "X-Refresh-Token".to_owned(),
        value,
        path: "/api/".to_owned(),
        secure: true,
        http_only: true,
    }
}

/// The reply to a request that succeeded.
pub fn success(cookies: Vec<Cookie>) -> (reply: Reply)
    ensures
        reply@ == spec_success(Seq::new(cookies@.len(), |i: int| cookies@[i]@)),
{
    Reply { status: 200, cookies, body: Envelope { status: 200, message: "Success!".to_owned() } }
}

/// The reply to a request that failed.
pub fn failure(error: AuthError) -> (reply: Reply)
    ensures
        reply@ == spec_failure(error),
{
    let status = error.status();
    let reply = Reply {
        status,
        cookies: Vec::new(),
        body: Envelope { status, message: error.message() },
    };
    assert(reply@.cookies =~= Seq::<CookieView>::empty());
    reply
}

/// The reply to a login.
pub fn login_reply(outcome: Result<TokenPair, AuthError>) -> (reply: Reply)
    ensures
        reply@ == spec_login_reply(outcome),
{
    match outcome {
        Ok(pair) => {
            let mut cookies: Vec<Cookie> = Vec::new();
            cookies.push(session_cookie(pair.session.text()));
            cookies.push(refresh_cookie(pair.refresh.text()));
            assert(Seq::new(cookies@.len(), |i: int| cookies@[i]@) =~= seq![
                spec_session_cookie(uuid_text(pair.session.value)),
                spec_refresh_cookie(uuid_text(pair.refresh.value)),
            ]);
            success(cookies)
        },
        Err(error) => failure(error),
    }
}

/// The reply to a refresh.
pub fn refresh_reply(outcome: Result<Token, AuthError>) -> (reply: Reply)
    ensures
        reply@ == spec_refresh_reply(outcome),
{
    match outcome {
        Ok(fresh) => {
            let mut cookies: Vec<Cookie> = Vec::new();
            cookies.push(refresh_cookie(fresh.text()));
            assert(Seq::new(cookies@.len(), |i: int| cookies@[i]@) =~= seq![
                spec_refresh_cookie(uuid_text(fresh.value)),
            ]);
            success(cookies)
        },
        Err(error) => failure(error),
    }
}

/// The refresh cookie of a rotation has the name, the path and the flags of the refresh
/// cookie of a login, and both are scoped as the session cookie is: a client that holds
/// the cookies of a login replaces its refresh cookie on every rotation.
pub proof fn lemma_rotation_replaces_refresh_cookie(pair: TokenPair, fresh: Token)
    ensures
        ({
            let issued = spec_login_reply(Ok(pair)).cookies;
            let rotated = spec_refresh_reply(Ok(fresh)).cookies;
            &&& issued.len() == 2
            &&& rotated.len() == 1
            &&& issued[0].name == spec_session_cookie_name()
            &&& issued[1].name == spec_refresh_cookie_name()
            &&& rotated[0].name == issued[1].name
            &&& rotated[0].path == issued[1].path
            &&& issued[0].path == spec_api_root()
            &&& issued[1].path == spec_api_root()
            &&& issued[0].secure && issued[0].http_only
            &&& issued[1].secure && issued[1].http_only
            &&& rotated[0].secure && rotated[0].http_only
            &&& issued[0].value == uuid_text(pair.session.value)
            &&& issued[1].value == uuid_text(pair.refresh.value)
            &&& rotated[0].value == uuid_text(fresh.value)
        }),
{
}

/// A failed login is reported with status 401 where the credentials were refused and with
/// 500 where the store failed, and never sets a cookie.
pub proof fn lemma_failed_login_reply(error: AuthError)
    ensures
        spec_login_reply(Err(error)).cookies.len() == 0,
        spec_login_reply(Err(AuthError::InvalidCredentials)).status == 401,
        spec_login_reply(Err(AuthError::Internal)).status == 500,
        spec_refresh_reply(Err(error)).cookies.len() == 0,
        spec_refresh_reply(Err(AuthError::InvalidRefresh)).status == 401,
        spec_refresh_reply(Err(AuthError::Internal)).status == 500,
{
}

} // verus!
