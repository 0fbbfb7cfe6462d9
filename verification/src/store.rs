//! A session store held in memory.
//!
//! The store takes one call at a time: a login or a rotation checks and changes the state
//! in a single step, so of two rotations that present the same refresh token only the one
//! that comes first can succeed.

use std::collections::HashMap;
use vstd::prelude::*;
use crate::address::NetworkAddress;
use crate::error::{AuthError, ValidationError};
use crate::session::{Grant, RefreshToken, Session, SessionEvent, SessionPhase, TokenPair};
use crate::state::{
    lemma_expire_keeps_wf, lemma_login_keeps_wf, lemma_register_keeps_wf, lemma_revoke_keeps_wf,
    lemma_rotate_keeps_wf, Credential, StoreState,
};
use crate::text::text_eq;
use crate::token::Token;

verus! {

/// A username with the password that goes with it.
pub struct Account {
    username: String,
    password: String,
}

impl View for Account {
    type V = Credential;

    closed spec fn view(&self) -> Credential {
        Credential { username: self.username@, password: self.password@ }
    }
}

/// The accounts, sessions and refresh tokens of a gateway.
pub struct SessionStore {
    accounts: Vec<Account>,
    sessions: HashMap<u128, Session>,
    refresh_tokens: HashMap<u128, RefreshToken>,
}

impl View for SessionStore {
    type V = StoreState;

    closed spec fn view(&self) -> StoreState {
        StoreState {
            accounts: Seq::new(self.accounts@.len(), |i: int| self.accounts@[i]@),
            sessions: self.sessions@,
            refresh_tokens: self.refresh_tokens@,
        }
    }
}

impl SessionStore {
    /// An empty store.
    pub fn new() -> (store: SessionStore)
        ensures
            store@ == StoreState::empty(),
            store@.wf(),
    {
        let store = SessionStore {
            accounts: Vec::new(),
            sessions: HashMap::new(),
            refresh_tokens: HashMap::new(),
        };
        assert(store@.accounts =~= Seq::<Credential>::empty());
        store
    }

    /// The position of the account with this username.
    fn find_account(&self, username: &str) -> (found: Option<usize>)
        ensures
            match found {
                Some(at) => at < self@.accounts.len() && self@.accounts[at as int].username
                    == username@,
                None => !self@.has_user(username@),
            },
    {
        let mut at: usize = 0;
        while at < self.accounts.len()
            invariant
                at <= self.accounts.len(),
                forall|i: int| 0 <= i < at ==> (#[trigger] self@.accounts[i]).username != username@,
            decreases self.accounts.len() - at,
        {
            if text_eq(self.accounts[at].username.as_str(), username) {
                return Some(at);
            }
            at += 1;
        }
        None
    }

    /// Registers an account. Returns whether it did: a username that is taken stays with
    /// the password it has.
    pub fn register(&mut self, username: &str, password: &str) -> (added: bool)
        requires
            old(self)@.wf(),
        ensures
            added == !old(self)@.has_user(username@),
            final(self)@ == old(self)@.after_register(username@, password@),
            final(self)@.wf(),
    {
        proof {
            lemma_register_keeps_wf(self@, username@, password@);
        }
        match self.find_account(username) {
            Some(_) => false,
            None => {
                let account = Account {
                    username: username.to_owned(),
                    password: password.to_owned(),
                };
                self.accounts.push(account);
                assert(self@.accounts =~= old(self)@.accounts.push(
                    Credential { username: username@, password: password@ },
                ));
                true
            },
        }
    }

    /// Whether the username is registered with this password.
    pub fn knows(&self, username: &str, password: &str) -> (known: bool)
        requires
            self@.wf(),
        ensures
            known == self@.knows(username@, password@),
    {
        match self.find_account(username) {
            Some(at) => {
                let known = text_eq(self.accounts[at].password.as_str(), password);
                proof {
                    if !known && self@.knows(username@, password@) {
                        let other = choose|i: int|
                            0 <= i < self@.accounts.len() && (#[trigger] self@.accounts[i]).username
                                == username@ && self@.accounts[i].password == password@;
                        assert(other != at);
                    }
                }
                known
            },
            None => false,
        }
    }

    /// Logs a user in from the network `client`, issuing the tokens of `grant`.
    ///
    /// On success the store holds one new session and its first refresh token, both bound
    /// to `client`. On failure the store is unchanged.
    pub fn login(
        &mut self,
        username: &str,
        password: &str,
        client: NetworkAddress,
        grant: Grant,
    ) -> (outcome: Result<TokenPair, AuthError>)
        requires
            old(self)@.wf(),
        ensures
            outcome == old(self)@.login_outcome(username@, password@, client, grant),
            final(self)@ == old(self)@.after_login(username@, password@, client, grant),
            final(self)@.wf(),
    {
        proof {
            lemma_login_keeps_wf(self@, username@, password@, client, grant);
        }
        if !client.is_wf() {
            return Err(AuthError::Validation(ValidationError::MalformedAddress));
        }
        if username.is_empty() {
            return Err(AuthError::Validation(ValidationError::EmptyUsername));
        }
        if password.is_empty() {
            return Err(AuthError::Validation(ValidationError::EmptyPassword));
        }
        if !self.knows(username, password) {
            return Err(AuthError::InvalidCredentials);
        }
        if self.sessions.contains_key(&grant.session.value) || self.refresh_tokens.contains_key(
            &grant.refresh.value,
        ) {
            return Err(AuthError::Internal);
        }
        self.sessions.insert(
            grant.session.value,
            Session {
                token: grant.session,
                bound_ip: client,
                expires_at: grant.expires_at,
                phase: SessionPhase::initial(),
                refresh: grant.refresh,
            },
        );
        self.refresh_tokens.insert(
            grant.refresh.value,
            RefreshToken {
                value: grant.refresh,
                session: grant.session,
                bound_ip: client,
                consumed: false,
            },
        );
        assert(self@.accounts =~= old(self)@.accounts);
        Ok(TokenPair { session: grant.session, refresh: grant.refresh })
    }

    /// Renews the session named by `session`: consumes `refresh` and issues `fresh` in its
    /// place, bound to `client`.
    ///
    /// The refresh is refused, with one error for every cause, unless the session exists,
    /// is paired with `refresh`, `refresh` is not consumed, and it is bound to `client`. A
    /// refused or failed call leaves the store unchanged. The session token is not
    /// replaced.
    pub fn rotate_refresh(
        &mut self,
        session: Token,
        refresh: Token,
        client: NetworkAddress,
        fresh: Token,
    ) -> (outcome: Result<Token, AuthError>)
        requires
            old(self)@.wf(),
        ensures
            outcome == old(self)@.rotate_outcome(session, refresh, client, fresh),
            final(self)@ == old(self)@.after_rotate(session, refresh, client, fresh),
            final(self)@.wf(),
    {
        proof {
            lemma_rotate_keeps_wf(self@, session, refresh, client, fresh);
        }
        let before = match self.sessions.get(&session.value) {
            Some(entry) => *entry,
            None => {
                return Err(AuthError::InvalidRefresh);
            },
        };
        if before.refresh != refresh {
            return Err(AuthError::InvalidRefresh);
        }
        let presented = match self.refresh_tokens.get(&refresh.value) {
            Some(token) => *token,
            None => {
                return Err(AuthError::InvalidRefresh);
            },
        };
        if presented.consumed || presented.bound_ip != client {
            return Err(AuthError::InvalidRefresh);
        }
        if self.refresh_tokens.contains_key(&fresh.value) {
            return Err(AuthError::Internal);
        }
        self.sessions.insert(
            session.value,
            Session {
                token: before.token,
                bound_ip: before.bound_ip,
                expires_at: before.expires_at,
                phase: before.phase.after(SessionEvent::Rotate),
                refresh: fresh,
            },
        );
        self.refresh_tokens.insert(
            refresh.value,
            RefreshToken {
                value: presented.value,
                session: presented.session,
                bound_ip: presented.bound_ip,
                consumed: true,
            },
        );
        self.refresh_tokens.insert(
            fresh.value,
            RefreshToken { value: fresh, session, bound_ip: client, consumed: false },
        );
        assert(self@.accounts =~= old(self)@.accounts);
        Ok(fresh)
    }

    /// Marks a session expired at the instant `now`. Returns whether it did: only an
    /// active session whose expiry has passed expires. The expiry itself never moves.
    pub fn expire(&mut self, session: Token, now: u64) -> (expired: bool)
        requires
            old(self)@.wf(),
        ensures
            expired == old(self)@.expirable(session, now),
            final(self)@ == old(self)@.after_expire(session, now),
            final(self)@.wf(),
    {
        proof {
            lemma_expire_keeps_wf(self@, session, now);
        }
        let before = match self.sessions.get(&session.value) {
            Some(entry) => *entry,
            None => {
                return false;
            },
        };
        if !before.phase.is_active() || before.expires_at > now {
            return false;
        }
        self.sessions.insert(
            session.value,
            Session {
                token: before.token,
                bound_ip: before.bound_ip,
                expires_at: before.expires_at,
                phase: before.phase.after(SessionEvent::Expire),
                refresh: before.refresh,
            },
        );
        assert(self@.accounts =~= old(self)@.accounts);
        true
    }

    /// Revokes a session: consumes its refresh token and issues none in its place.
    /// Returns whether it did: a session that is unknown or revoked already stays as it is.
    pub fn revoke(&mut self, session: Token) -> (revoked: bool)
        requires
            old(self)@.wf(),
        ensures
            revoked == old(self)@.revocable(session),
            final(self)@ == old(self)@.after_revoke(session),
            final(self)@.wf(),
    {
        proof {
            lemma_revoke_keeps_wf(self@, session);
        }
        let before = match self.sessions.get(&session.value) {
            Some(entry) => *entry,
            None => {
                return false;
            },
        };
        if before.phase == SessionPhase::Revoked {
            return false;
        }
        let paired = match self.refresh_tokens.get(&before.refresh.value) {
            Some(token) => *token,
            None => {
                return false;
            },
        };
        self.sessions.insert(
            session.value,
            Session {
                token: before.token,
                bound_ip: before.bound_ip,
                expires_at: before.expires_at,
                phase: before.phase.after(SessionEvent::Revoke),
                refresh: before.refresh,
            },
        );
        self.refresh_tokens.insert(
            before.refresh.value,
            RefreshToken {
                value: paired.value,
                session: paired.session,
                bound_ip: paired.bound_ip,
                consumed: true,
            },
        );
        assert(self@.accounts =~= old(self)@.accounts);
        true
    }

    /// The session that a token names.
    pub fn session(&self, token: Token) -> (found: Option<Session>)
        ensures
            found == self@.session(token),
    {
        match self.sessions.get(&token.value) {
            Some(entry) => Some(*entry),
            None => None,
        }
    }

    /// The record of a refresh token, live or consumed.
    pub fn refresh_token(&self, value: Token) -> (found: Option<RefreshToken>)
        ensures
            found == self@.refresh_token(value),
    {
        match self.refresh_tokens.get(&value.value) {
            Some(token) => Some(*token),
            None => None,
        }
    }
}

} // verus!
