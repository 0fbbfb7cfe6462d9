//! What holds of every store, whatever calls it has taken.
//!
//! The laws speak of store states and of the steps in `state`; the store in memory takes
//! exactly those steps, one call at a time.

use vstd::prelude::*;
use crate::address::NetworkAddress;
use crate::error::AuthError;
use crate::reply::{spec_login_reply, spec_refresh_cookie, spec_refresh_reply};
use crate::session::{Grant, SessionPhase, TokenPair};
use crate::state::{lemma_login_keeps_wf, lemma_rotate_keeps_wf, StoreState};
use crate::token::{uuid_text, Token};

verus! {

/// Two logins in a row with known credentials, each with a grant that is unused when it is
/// presented, both succeed and are both answered with status 200. The two pairs differ in
/// the session token and in the refresh token. The second login leaves the first session
/// as it was: afterwards each pair passes the checks of a refresh from its own network,
/// and with two replacements that were never issued both sessions can be rotated, in
/// either order.
pub proof fn law_successive_logins_are_distinct(
    state: StoreState,
    username: Seq<char>,
    password: Seq<char>,
    client: NetworkAddress,
    first: Grant,
    second: Grant,
    one: Token,
    other: Token,
)
    requires
        state.wf(),
        username.len() > 0,
        password.len() > 0,
        client.wf(),
        state.knows(username, password),
        state.unused(first),
        state.after_login(username, password, client, first).unused(second),
    ensures
        ({
            let middle = state.after_login(username, password, client, first);
            let end = middle.after_login(username, password, client, second);
            let earlier = state.login_outcome(username, password, client, first);
            let later = middle.login_outcome(username, password, client, second);
            &&& earlier == Ok::<TokenPair, AuthError>(
                TokenPair { session: first.session, refresh: first.refresh },
            )
            &&& later == Ok::<TokenPair, AuthError>(
                TokenPair { session: second.session, refresh: second.refresh },
            )
            &&& spec_login_reply(earlier).status == 200
            &&& spec_login_reply(later).status == 200
            &&& first.session != second.session
            &&& first.refresh != second.refresh
            &&& end.sessions[first.session.value] == middle.sessions[first.session.value]
            &&& end.refresh_tokens[first.refresh.value]
                == middle.refresh_tokens[first.refresh.value]
            &&& end.valid_refresh(first.session, first.refresh, client)
            &&& end.valid_refresh(second.session, second.refresh, client)
            &&& end.unissued(one) && end.unissued(other) && one != other ==> {
                let a = end.after_rotate(first.session, first.refresh, client, one);
                let b = end.after_rotate(second.session, second.refresh, client, one);
                &&& end.rotate_outcome(first.session, first.refresh, client, one) == Ok::<
                    Token,
                    AuthError,
                >(one)
                &&& a.rotate_outcome(second.session, second.refresh, client, other) == Ok::<
                    Token,
                    AuthError,
                >(other)
                &&& end.rotate_outcome(second.session, second.refresh, client, one) == Ok::<
                    Token,
                    AuthError,
                >(one)
                &&& b.rotate_outcome(first.session, first.refresh, client, other) == Ok::<
                    Token,
                    AuthError,
                >(other)
            }
        }),
{
    let middle = state.after_login(username, password, client, first);
    assert(middle.accounts == state.accounts);
    assert(middle.knows(username, password));
    assert(middle.sessions.contains_key(first.session.value));
    assert(middle.refresh_tokens.contains_key(first.refresh.value));
}

/// A refresh token that was consumed is refused, whatever session, network and
/// replacement come with it.
pub proof fn law_consumed_refresh_is_refused(
    state: StoreState,
    session: Token,
    refresh: Token,
    client: NetworkAddress,
    fresh: Token,
)
    requires
        state.wf(),
        state.consumed(refresh),
    ensures
        state.rotate_outcome(session, refresh, client, fresh) == Err::<Token, AuthError>(
            AuthError::InvalidRefresh,
        ),
        state.after_rotate(session, refresh, client, fresh) == state,
{
}

/// A refresh from a network other than the one the session is bound to is refused, also
/// with the right refresh token, unconsumed.
pub proof fn law_foreign_network_is_refused(
    state: StoreState,
    session: Token,
    refresh: Token,
    client: NetworkAddress,
    fresh: Token,
)
    requires
        state.wf(),
        state.sessions.contains_key(session.value),
        state.sessions[session.value].bound_ip != client,
    ensures
        state.rotate_outcome(session, refresh, client, fresh) == Err::<Token, AuthError>(
            AuthError::InvalidRefresh,
        ),
        state.after_rotate(session, refresh, client, fresh) == state,
{
}

/// Of two rotations that present the same session token, refresh token and network, taken
/// one after the other, at most one succeeds: where the first succeeds, the second is
/// refused and changes nothing. Where the three pass the checks at the start and the first
/// replacement was never issued, the first succeeds, so that exactly one of the two does:
/// one is answered with status 200 and the other with 401, the presented token is
/// consumed, and the first replacement is the one live refresh token of the session.
pub proof fn law_one_of_two_rotations_succeeds(
    state: StoreState,
    session: Token,
    refresh: Token,
    client: NetworkAddress,
    first: Token,
    second: Token,
)
    requires
        state.wf(),
    ensures
        ({
            let middle = state.after_rotate(session, refresh, client, first);
            let end = middle.after_rotate(session, refresh, client, second);
            let one = state.rotate_outcome(session, refresh, client, first);
            let other = middle.rotate_outcome(session, refresh, client, second);
            &&& !(one is Ok && other is Ok)
            &&& one is Ok ==> other == Err::<Token, AuthError>(AuthError::InvalidRefresh)
            &&& one is Ok ==> end == middle
            &&& state.valid_refresh(session, refresh, client) && state.unissued(first) ==> {
                &&& one == Ok::<Token, AuthError>(first)
                &&& other == Err::<Token, AuthError>(AuthError::InvalidRefresh)
                &&& spec_refresh_reply(one).status == 200
                &&& spec_refresh_reply(other).status == 401
                &&& end.wf()
                &&& end.consumed(refresh)
                &&& end.valid_refresh(session, first, client)
                &&& end.sessions[session.value].refresh == first
            }
        }),
{
    let middle = state.after_rotate(session, refresh, client, first);
    lemma_rotate_keeps_wf(state, session, refresh, client, first);
    if state.rotate_outcome(session, refresh, client, first) is Ok {
        assert(middle.refresh_tokens.contains_key(refresh.value));
        assert(middle.refresh_tokens[refresh.value].consumed);
    }
}

/// A login followed by a rotation that presents the refresh token it returned, from the
/// same network, with a replacement that was never issued, succeeds. It is answered with
/// status 200 and one cookie, the refresh cookie with the replacement in canonical form.
/// The replacement differs from the refresh token of the login, which is consumed from
/// then on; the session keeps its token, its address and its expiry.
pub proof fn law_login_then_rotate(
    state: StoreState,
    username: Seq<char>,
    password: Seq<char>,
    client: NetworkAddress,
    grant: Grant,
    fresh: Token,
)
    requires
        state.wf(),
        state.login_outcome(username, password, client, grant) is Ok,
        state.after_login(username, password, client, grant).unissued(fresh),
    ensures
        ({
            let middle = state.after_login(username, password, client, grant);
            let end = middle.after_rotate(grant.session, grant.refresh, client, fresh);
            let outcome = middle.rotate_outcome(grant.session, grant.refresh, client, fresh);
            &&& outcome == Ok::<Token, AuthError>(fresh)
            &&& spec_refresh_reply(outcome).status == 200
            &&& spec_refresh_reply(outcome).body_status == 200
            &&& spec_refresh_reply(outcome).cookies == seq![
                spec_refresh_cookie(uuid_text(fresh.value)),
            ]
            &&& fresh != grant.refresh
            &&& end.consumed(grant.refresh)
            &&& end.valid_refresh(grant.session, fresh, client)
            &&& end.sessions[grant.session.value].token == grant.session
            &&& end.sessions[grant.session.value].bound_ip == client
            &&& end.sessions[grant.session.value].expires_at == grant.expires_at
            &&& end.sessions[grant.session.value].phase == SessionPhase::Rotated
        }),
{
    let middle = state.after_login(username, password, client, grant);
    assert(middle.sessions.contains_key(grant.session.value));
    assert(middle.refresh_tokens.contains_key(grant.refresh.value));
}

/// No session has two live refresh tokens: two refresh tokens of one session that are
/// both unconsumed are one token.
pub proof fn law_one_live_refresh_per_session(state: StoreState, one: Token, other: Token)
    requires
        state.wf(),
        state.refresh_tokens.contains_key(one.value),
        state.refresh_tokens.contains_key(other.value),
        !state.refresh_tokens[one.value].consumed,
        !state.refresh_tokens[other.value].consumed,
        state.refresh_tokens[one.value].session == state.refresh_tokens[other.value].session,
    ensures
        one == other,
{
}

/// A consumed refresh token stays consumed through every login and every rotation, and
/// is never issued again.
pub proof fn law_consumed_stays_consumed(
    state: StoreState,
    spent: Token,
    username: Seq<char>,
    password: Seq<char>,
    client: NetworkAddress,
    grant: Grant,
    session: Token,
    refresh: Token,
    fresh: Token,
)
    requires
        state.wf(),
        state.consumed(spent),
    ensures
        state.after_login(username, password, client, grant).consumed(spent),
        state.after_rotate(session, refresh, client, fresh).consumed(spent),
        state.login_outcome(username, password, client, grant) is Ok ==> grant.refresh != spent,
        state.rotate_outcome(session, refresh, client, fresh) is Ok ==> fresh != spent,
{
}

/// A rotation never changes what a session is bound to: every session on record keeps its
/// token, its address and its expiry, whether the rotation succeeds or not.
pub proof fn law_rotation_keeps_binding(
    state: StoreState,
    known: Token,
    session: Token,
    refresh: Token,
    client: NetworkAddress,
    fresh: Token,
)
    requires
        state.wf(),
        state.sessions.contains_key(known.value),
    ensures
        ({
            let end = state.after_rotate(session, refresh, client, fresh);
            &&& end.wf()
            &&& end.sessions.contains_key(known.value)
            &&& end.sessions[known.value].token == state.sessions[known.value].token
            &&& end.sessions[known.value].bound_ip == state.sessions[known.value].bound_ip
            &&& end.sessions[known.value].expires_at == state.sessions[known.value].expires_at
        }),
{
    lemma_rotate_keeps_wf(state, session, refresh, client, fresh);
}

/// A login changes no session that was on record before it.
pub proof fn law_login_keeps_sessions(
    state: StoreState,
    known: Token,
    username: Seq<char>,
    password: Seq<char>,
    client: NetworkAddress,
    grant: Grant,
)
    requires
        state.wf(),
        state.sessions.contains_key(known.value),
    ensures
        ({
            let end = state.after_login(username, password, client, grant);
            &&& end.wf()
            &&& end.sessions.contains_key(known.value)
            &&& end.sessions[known.value] == state.sessions[known.value]
        }),
{
    lemma_login_keeps_wf(state, username, password, client, grant);
}

/// A revoked session cannot be refreshed with any refresh token from any network.
pub proof fn law_revoked_is_final(
    state: StoreState,
    session: Token,
    refresh: Token,
    client: NetworkAddress,
    fresh: Token,
)
    requires
        state.wf(),
        state.sessions.contains_key(session.value),
        state.sessions[session.value].phase == SessionPhase::Revoked,
    ensures
        state.rotate_outcome(session, refresh, client, fresh) == Err::<Token, AuthError>(
            AuthError::InvalidRefresh,
        ),
{
}

} // verus!
