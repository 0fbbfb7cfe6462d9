//! The state of a session store as a mathematical value, and the steps that change it.
//!
//! A store holds the accounts it can check credentials against, every session it has
//! issued, and every refresh token it has ever issued, consumed ones included: a consumed
//! token stays on record so that it can never validate, nor be issued, again.

use vstd::prelude::*;
use crate::address::NetworkAddress;
use crate::error::{AuthError, ValidationError};
use crate::session::{Grant, RefreshToken, Session, SessionEvent, SessionPhase, TokenPair};
use crate::token::Token;

verus! {

/// A username with the password that goes with it.
pub struct Credential {
    pub username: Seq<char>,
    pub password: Seq<char>,
}

/// All that a session store holds. Sessions and refresh tokens are keyed by their 128 bits.
pub struct StoreState {
    pub accounts: Seq<Credential>,
    pub sessions: Map<u128, Session>,
    pub refresh_tokens: Map<u128, RefreshToken>,
}

impl StoreState {
    /// A store with no account, no session and no refresh token.
    pub open spec fn empty() -> StoreState {
        StoreState { accounts: Seq::empty(), sessions: Map::empty(), refresh_tokens: Map::empty() }
    }

    /// What holds of the session filed under `s`: it is filed under its own token, is
    /// bound to a proper address, and is paired with a refresh token on record that was
    /// issued for it, to the same address; that token is consumed exactly when the session
    /// is revoked.
    pub open spec fn session_in_order(self, s: u128) -> bool {
        let session = self.sessions[s];
        &&& session.token.value == s
        &&& session.bound_ip.wf()
        &&& self.refresh_tokens.contains_key(session.refresh.value)
        &&& self.refresh_tokens[session.refresh.value].session == session.token
        &&& self.refresh_tokens[session.refresh.value].bound_ip == session.bound_ip
        &&& self.refresh_tokens[session.refresh.value].consumed == (session.phase
            == SessionPhase::Revoked)
    }

    /// What holds of the refresh token filed under `r`: it is filed under its own value
    /// and belongs to a session on record; if it is not consumed, it is the one its session
    /// is paired with.
    pub open spec fn refresh_in_order(self, r: u128) -> bool {
        let token = self.refresh_tokens[r];
        &&& token.value.value == r
        &&& self.sessions.contains_key(token.session.value)
        &&& !token.consumed ==> self.sessions[token.session.value].refresh == token.value
    }

    /// What holds of every store: no username is registered twice, and every session and
    /// every refresh token on record is in order. A session therefore never has two live
    /// refresh tokens.
    pub open spec fn wf(self) -> bool {
        &&& forall|i: int, j: int|
            0 <= i < j < self.accounts.len() ==> (#[trigger] self.accounts[i]).username != (
            #[trigger] self.accounts[j]).username
        &&& forall|s: u128| #[trigger] self.sessions.contains_key(s) ==> self.session_in_order(s)
        &&& forall|r: u128| #[trigger]
            self.refresh_tokens.contains_key(r) ==> self.refresh_in_order(r)
    }

    /// Whether an account with this username is registered.
    pub open spec fn has_user(self, username: Seq<char>) -> bool {
        exists|i: int| 0 <= i < self.accounts.len() && (#[trigger] self.accounts[i]).username
            == username
    }

    /// Whether the username is registered with this password.
    pub open spec fn knows(self, username: Seq<char>, password: Seq<char>) -> bool {
        exists|i: int|
            0 <= i < self.accounts.len() && (#[trigger] self.accounts[i]).username == username
                && self.accounts[i].password == password
    }

    /// The session that a token names.
    pub open spec fn session(self, token: Token) -> Option<Session> {
        if self.sessions.contains_key(token.value) {
            Some(self.sessions[token.value])
        } else {
            None
        }
    }

    /// The record of a refresh token, live or consumed.
    pub open spec fn refresh_token(self, value: Token) -> Option<RefreshToken> {
        if self.refresh_tokens.contains_key(value.value) {
            Some(self.refresh_tokens[value.value])
        } else {
            None
        }
    }

    /// Whether a refresh token was issued once and has been used up since.
    pub open spec fn consumed(self, refresh: Token) -> bool {
        self.refresh_tokens.contains_key(refresh.value)
            && self.refresh_tokens[refresh.value].consumed
    }

    /// Whether neither token of a grant was ever issued.
    pub open spec fn unused(self, grant: Grant) -> bool {
        !self.sessions.contains_key(grant.session.value) && !self.refresh_tokens.contains_key(
            grant.refresh.value,
        )
    }

    /// Whether a value was never issued as a refresh token.
    pub open spec fn unissued(self, refresh: Token) -> bool {
        !self.refresh_tokens.contains_key(refresh.value)
    }

    /// The store with one more account, unless the username is taken.
    pub open spec fn after_register(self, username: Seq<char>, password: Seq<char>) -> StoreState {
        if self.has_user(username) {
            self
        } else {
            StoreState { accounts: self.accounts.push(Credential { username, password }), ..self }
        }
    }

    /// What a login returns.
    ///
    /// An improper address, an empty username and an empty password are validation
    /// errors, in this order. Credentials that the store does not know are refused,
    /// whether the username or the password is at fault. A grant with a token that was
    /// issued before is a failure of the store. Otherwise the tokens of the grant are
    /// issued.
    pub open spec fn login_outcome(
        self,
        username: Seq<char>,
        password: Seq<char>,
        client: NetworkAddress,
        grant: Grant,
    ) -> Result<TokenPair, AuthError> {
        if !client.wf() {
            Err(AuthError::Validation(ValidationError::MalformedAddress))
        } else if username.len() == 0 {
            Err(AuthError::Validation(ValidationError::EmptyUsername))
        } else if password.len() == 0 {
            Err(AuthError::Validation(ValidationError::EmptyPassword))
        } else if !self.knows(username, password) {
            Err(AuthError::InvalidCredentials)
        } else if !self.unused(grant) {
            Err(AuthError::Internal)
        } else {
            Ok(TokenPair { session: grant.session, refresh: grant.refresh })
        }
    }

    /// The store after a login: unchanged where the login failed; with one new session and
    /// its first refresh token, both bound to the client's address, where it succeeded.
    pub open spec fn after_login(
        self,
        username: Seq<char>,
        password: Seq<char>,
        client: NetworkAddress,
        grant: Grant,
    ) -> StoreState {
        if self.login_outcome(username, password, client, grant) is Ok {
            StoreState {
                sessions: self.sessions.insert(
                    grant.session.value,
                    Session {
                        token: grant.session,
                        bound_ip: client,
                        expires_at: grant.expires_at,
                        phase: SessionPhase::Active,
                        refresh: grant.refresh,
                    },
                ),
                refresh_tokens: self.refresh_tokens.insert(
                    grant.refresh.value,
                    RefreshToken {
                        value: grant.refresh,
                        session: grant.session,
                        bound_ip: client,
                        consumed: false,
                    },
                ),
                ..self
            }
        } else {
            self
        }
    }

    /// Whether a refresh would pass all three checks: the session exists and is paired
    /// with the presented refresh token, that token is not consumed, and it is bound to
    /// the client's address.
    pub open spec fn valid_refresh(self, session: Token, refresh: Token, client: NetworkAddress) -> bool {
        &&& self.sessions.contains_key(session.value)
        &&& self.sessions[session.value].refresh == refresh
        &&& self.refresh_tokens.contains_key(refresh.value)
        &&& !self.refresh_tokens[refresh.value].consumed
        &&& self.refresh_tokens[refresh.value].bound_ip == client
    }

    /// What a rotation returns.
    ///
    /// A refresh that fails any of the three checks is refused, with one error for all of
    /// them. A replacement that was issued before is a failure of the store. Otherwise the
    /// replacement is issued.
    pub open spec fn rotate_outcome(
        self,
        session: Token,
        refresh: Token,
        client: NetworkAddress,
        fresh: Token,
    ) -> Result<Token, AuthError> {
        if !self.valid_refresh(session, refresh, client) {
            Err(AuthError::InvalidRefresh)
        } else if !self.unissued(fresh) {
            Err(AuthError::Internal)
        } else {
            Ok(fresh)
        }
    }

    /// The store after a rotation: unchanged where it failed. Where it succeeded, the
    /// presented refresh token is consumed, the replacement is on record, bound to the
    /// client's address, and the session is paired with it. The session keeps its token,
    /// its address and its expiry.
    pub open spec fn after_rotate(
        self,
        session: Token,
        refresh: Token,
        client: NetworkAddress,
        fresh: Token,
    ) -> StoreState {
        if self.rotate_outcome(session, refresh, client, fresh) is Ok {
            let before = self.sessions[session.value];
            StoreState {
                sessions: self.sessions.insert(
                    session.value,
                    Session {
                        phase: before.phase.spec_after(SessionEvent::Rotate),
                        refresh: fresh,
                        ..before
                    },
                ),
                refresh_tokens: self.refresh_tokens.insert(
                    refresh.value,
                    RefreshToken { consumed: true, ..self.refresh_tokens[refresh.value] },
                ).insert(
                    fresh.value,
                    RefreshToken { value: fresh, session, bound_ip: client, consumed: false },
                ),
                ..self
            }
        } else {
            self
        }
    }

    /// Whether a session can be marked expired at the instant `now`: it exists, is active,
    /// and its expiry has passed.
    pub open spec fn expirable(self, session: Token, now: u64) -> bool {
        &&& self.sessions.contains_key(session.value)
        &&& self.sessions[session.value].phase.spec_is_active()
        &&& self.sessions[session.value].expires_at <= now
    }

    /// The store after an expiry: the session is `Expired` where it could be marked so,
    /// and nothing changed where it could not.
    pub open spec fn after_expire(self, session: Token, now: u64) -> StoreState {
        if self.expirable(session, now) {
            let before = self.sessions[session.value];
            StoreState {
                sessions: self.sessions.insert(
                    session.value,
                    Session { phase: before.phase.spec_after(SessionEvent::Expire), ..before },
                ),
                ..self
            }
        } else {
            self
        }
    }

    /// Whether a session can be revoked: it exists and is not revoked yet.
    pub open spec fn revocable(self, session: Token) -> bool {
        &&& self.sessions.contains_key(session.value)
        &&& self.sessions[session.value].phase != SessionPhase::Revoked
        &&& self.refresh_tokens.contains_key(self.sessions[session.value].refresh.value)
    }

    /// The store after a revocation: the session's refresh token is consumed with no
    /// replacement and the session is `Revoked`; nothing changed where it could not be.
    pub open spec fn after_revoke(self, session: Token) -> StoreState {
        if self.revocable(session) {
            let before = self.sessions[session.value];
            StoreState {
                sessions: self.sessions.insert(
                    session.value,
                    Session { phase: before.phase.spec_after(SessionEvent::Revoke), ..before },
                ),
                refresh_tokens: self.refresh_tokens.insert(
                    before.refresh.value,
                    RefreshToken { consumed: true, ..self.refresh_tokens[before.refresh.value] },
                ),
                ..self
            }
        } else {
            self
        }
    }
}

/// Registering an account keeps the store well formed.
pub proof fn lemma_register_keeps_wf(state: StoreState, username: Seq<char>, password: Seq<char>)
    requires
        state.wf(),
    ensures
        state.after_register(username, password).wf(),
{
    let after = state.after_register(username, password);
    if !state.has_user(username) {
        assert forall|i: int, j: int| 0 <= i < j < after.accounts.len() implies (
        #[trigger] after.accounts[i]).username != (#[trigger] after.accounts[j]).username by {
            if j == state.accounts.len() {
                assert(state.accounts[i].username != username);
            }
        }
    }
}

/// A login keeps the store well formed.
pub proof fn lemma_login_keeps_wf(
    state: StoreState,
    username: Seq<char>,
    password: Seq<char>,
    client: NetworkAddress,
    grant: Grant,
)
    requires
        state.wf(),
    ensures
        state.after_login(username, password, client, grant).wf(),
{
    let after = state.after_login(username, password, client, grant);
    if state.login_outcome(username, password, client, grant) is Ok {
        assert forall|s: u128| #[trigger] after.sessions.contains_key(s) implies
            after.session_in_order(s) by {
            if s != grant.session.value {
                assert(state.sessions.contains_key(s));
            }
        }
        assert forall|r: u128| #[trigger] after.refresh_tokens.contains_key(r) implies
            after.refresh_in_order(r) by {
            if r != grant.refresh.value {
                assert(state.refresh_tokens.contains_key(r));
            }
        }
    }
}

/// A rotation keeps the store well formed.
pub proof fn lemma_rotate_keeps_wf(
    state: StoreState,
    session: Token,
    refresh: Token,
    client: NetworkAddress,
    fresh: Token,
)
    requires
        state.wf(),
    ensures
        state.after_rotate(session, refresh, client, fresh).wf(),
{
    let after = state.after_rotate(session, refresh, client, fresh);
    if state.rotate_outcome(session, refresh, client, fresh) is Ok {
        assert(state.sessions.contains_key(session.value));
        assert(state.refresh_tokens.contains_key(refresh.value));
        assert forall|s: u128| #[trigger] after.sessions.contains_key(s) implies
            after.session_in_order(s) by {
            if s != session.value {
                assert(state.sessions.contains_key(s));
                assert(state.refresh_tokens.contains_key(state.sessions[s].refresh.value));
            }
        }
        assert forall|r: u128| #[trigger] after.refresh_tokens.contains_key(r) implies
            after.refresh_in_order(r) by {
            if r != fresh.value && r != refresh.value {
                assert(state.refresh_tokens.contains_key(r));
            }
        }
    }
}

/// An expiry keeps the store well formed.
pub proof fn lemma_expire_keeps_wf(state: StoreState, session: Token, now: u64)
    requires
        state.wf(),
    ensures
        state.after_expire(session, now).wf(),
{
    let after = state.after_expire(session, now);
    if state.expirable(session, now) {
        assert forall|s: u128| #[trigger] after.sessions.contains_key(s) implies
            after.session_in_order(s) by {
            assert(state.sessions.contains_key(s));
        }
        assert forall|r: u128| #[trigger] after.refresh_tokens.contains_key(r) implies
            after.refresh_in_order(r) by {
            assert(state.refresh_tokens.contains_key(r));
        }
    }
}

/// A revocation keeps the store well formed.
pub proof fn lemma_revoke_keeps_wf(state: StoreState, session: Token)
    requires
        state.wf(),
    ensures
        state.after_revoke(session).wf(),
{
    let after = state.after_revoke(session);
    if state.revocable(session) {
        let before = state.sessions[session.value];
        assert(state.sessions.contains_key(session.value));
        assert forall|s: u128| #[trigger] after.sessions.contains_key(s) implies
            after.session_in_order(s) by {
            assert(state.sessions.contains_key(s));
            if s != session.value {
                assert(state.refresh_tokens.contains_key(state.sessions[s].refresh.value));
            }
        }
        assert forall|r: u128| #[trigger] after.refresh_tokens.contains_key(r) implies
            after.refresh_in_order(r) by {
            assert(state.refresh_tokens.contains_key(r));
        }
    }
}

} // verus!
