use gateway_auth::address::{parse_address, AddressFamily, NetworkAddress};
use gateway_auth::error::{AuthError, ValidationError};
use gateway_auth::reply::{login_reply, refresh_reply};
use gateway_auth::session::{Grant, SessionEvent, SessionPhase, TokenPair};
use gateway_auth::store::SessionStore;
use gateway_auth::token::Token;

fn token(value: u128) -> Token {
    Token { value }
}

fn grant(session: u128, refresh: u128) -> Grant {
    Grant { session: token(session), refresh: token(refresh), expires_at: 1_000 }
}

fn home() -> NetworkAddress {
    parse_address("203.0.113.5/32").unwrap()
}

fn elsewhere() -> NetworkAddress {
    parse_address("198.51.100.9/32").unwrap()
}

fn store_with_alice() -> SessionStore {
    let mut store = SessionStore::new();
    assert!(store.register("alice", "correct-pw"));
    store
}

#[test]
fn scenario_login_succeeds() {
    let mut store = store_with_alice();
    let outcome = store.login("alice", "correct-pw", home(), grant(0x51, 0x71));
    assert_eq!(outcome, Ok(TokenPair { session: token(0x51), refresh: token(0x71) }));
    let session = store.session(token(0x51)).unwrap();
    assert_eq!(session.bound_ip, home());
    assert_eq!(session.expires_at, 1_000);
    assert_eq!(session.phase, SessionPhase::Active);
    assert_eq!(session.refresh, token(0x71));
    let refresh = store.refresh_token(token(0x71)).unwrap();
    assert_eq!(refresh.session, token(0x51));
    assert_eq!(refresh.bound_ip, home());
    assert!(!refresh.consumed);
    let reply = login_reply(outcome);
    assert_eq!(reply.status, 200);
    assert_eq!(reply.cookies.len(), 2);
}

#[test]
fn scenario_rotate_succeeds_with_new_token() {
    let mut store = store_with_alice();
    let pair = store.login("alice", "correct-pw", home(), grant(0x51, 0x71)).unwrap();
    let rotated = store.rotate_refresh(pair.session, pair.refresh, home(), token(0x72));
    assert_eq!(rotated, Ok(token(0x72)));
    assert_ne!(rotated.unwrap(), pair.refresh);
    let session = store.session(pair.session).unwrap();
    assert_eq!(session.token, pair.session);
    assert_eq!(session.refresh, token(0x72));
    assert_eq!(session.phase, SessionPhase::Rotated);
    assert_eq!(session.bound_ip, home());
    assert_eq!(session.expires_at, 1_000);
    assert!(store.refresh_token(token(0x71)).unwrap().consumed);
    assert!(!store.refresh_token(token(0x72)).unwrap().consumed);
    assert_eq!(refresh_reply(rotated).status, 200);
}

#[test]
fn scenario_replay_of_consumed_token_fails() {
    let mut store = store_with_alice();
    let pair = store.login("alice", "correct-pw", home(), grant(0x51, 0x71)).unwrap();
    assert_eq!(store.rotate_refresh(pair.session, pair.refresh, home(), token(0x72)), Ok(token(0x72)));
    let replay = store.rotate_refresh(pair.session, pair.refresh, home(), token(0x73));
    assert_eq!(replay, Err(AuthError::InvalidRefresh));
    assert_eq!(store.session(pair.session).unwrap().refresh, token(0x72));
    assert!(store.refresh_token(token(0x73)).is_none());
    let reply = refresh_reply(replay);
    assert_eq!(reply.status, 401);
    assert_eq!(reply.body.message, "invalid refresh token");
    assert!(reply.cookies.is_empty());
}

#[test]
fn scenario_rotate_from_wrong_ip_fails() {
    let mut store = store_with_alice();
    let pair = store.login("alice", "correct-pw", home(), grant(0x51, 0x71)).unwrap();
    let second = store.rotate_refresh(pair.session, pair.refresh, home(), token(0x72)).unwrap();
    let foreign = store.rotate_refresh(pair.session, second, elsewhere(), token(0x73));
    assert_eq!(foreign, Err(AuthError::InvalidRefresh));
    assert!(!store.refresh_token(second).unwrap().consumed);
    assert_eq!(store.rotate_refresh(pair.session, second, home(), token(0x73)), Ok(token(0x73)));
}

#[test]
fn scenario_wrong_password_is_unauthorized() {
    let mut store = store_with_alice();
    let outcome = store.login("alice", "wrong-pw", home(), grant(0x51, 0x71));
    assert_eq!(outcome, Err(AuthError::InvalidCredentials));
    assert!(store.session(token(0x51)).is_none());
    assert!(store.refresh_token(token(0x71)).is_none());
    let reply = login_reply(outcome);
    assert_eq!(reply.status, 401);
    assert_eq!(reply.body.status, 401);
    assert_eq!(reply.body.message, "incorrect username or password");
    assert!(reply.cookies.is_empty());
    let other_ip = store.login("alice", "wrong-pw", elsewhere(), grant(0x51, 0x71));
    assert_eq!(other_ip, Err(AuthError::InvalidCredentials));
}

#[test]
fn unknown_user_and_wrong_password_look_alike() {
    let mut store = store_with_alice();
    let unknown = store.login("mallory", "correct-pw", home(), grant(0x51, 0x71));
    let wrong = store.login("alice", "nope", home(), grant(0x51, 0x71));
    assert_eq!(unknown, Err(AuthError::InvalidCredentials));
    assert_eq!(unknown, wrong);
    assert_eq!(login_reply(unknown).body.message, login_reply(wrong).body.message);
}

#[test]
fn two_logins_issue_distinct_pairs_each_valid() {
    let mut store = store_with_alice();
    let first = store.login("alice", "correct-pw", home(), grant(0x51, 0x71)).unwrap();
    let second = store.login("alice", "correct-pw", home(), grant(0x52, 0x81)).unwrap();
    assert_ne!(first.session, second.session);
    assert_ne!(first.refresh, second.refresh);
    assert_eq!(store.rotate_refresh(first.session, first.refresh, home(), token(0x72)), Ok(token(0x72)));
    assert_eq!(store.rotate_refresh(second.session, second.refresh, home(), token(0x82)), Ok(token(0x82)));
}

#[test]
fn login_with_used_tokens_is_an_internal_failure() {
    let mut store = store_with_alice();
    store.login("alice", "correct-pw", home(), grant(0x51, 0x71)).unwrap();
    assert_eq!(store.login("alice", "correct-pw", home(), grant(0x51, 0x99)), Err(AuthError::Internal));
    assert_eq!(store.login("alice", "correct-pw", home(), grant(0x59, 0x71)), Err(AuthError::Internal));
    assert!(store.session(token(0x59)).is_none());
    assert!(store.refresh_token(token(0x99)).is_none());
    assert_eq!(login_reply(Err(AuthError::Internal)).status, 500);
    assert_eq!(login_reply(Err(AuthError::Internal)).body.message, "internal error");
}

#[test]
fn login_validates_its_inputs_first() {
    let mut store = store_with_alice();
    let improper = NetworkAddress { family: AddressFamily::V4, bits: 1 << 40, prefix: 32 };
    assert_eq!(
        store.login("", "", improper, grant(1, 2)),
        Err(AuthError::Validation(ValidationError::MalformedAddress))
    );
    assert_eq!(
        store.login("", "", home(), grant(1, 2)),
        Err(AuthError::Validation(ValidationError::EmptyUsername))
    );
    assert_eq!(
        store.login("alice", "", home(), grant(1, 2)),
        Err(AuthError::Validation(ValidationError::EmptyPassword))
    );
    assert!(store.session(token(1)).is_none());
}

#[test]
fn rotate_refuses_every_mismatch_alike() {
    let mut store = store_with_alice();
    let pair = store.login("alice", "correct-pw", home(), grant(0x51, 0x71)).unwrap();
    let other = store.login("alice", "correct-pw", home(), grant(0x52, 0x81)).unwrap();
    assert_eq!(store.rotate_refresh(token(0x99), pair.refresh, home(), token(5)), Err(AuthError::InvalidRefresh));
    assert_eq!(store.rotate_refresh(pair.session, token(0x99), home(), token(5)), Err(AuthError::InvalidRefresh));
    assert_eq!(store.rotate_refresh(pair.session, other.refresh, home(), token(5)), Err(AuthError::InvalidRefresh));
    assert_eq!(store.rotate_refresh(pair.session, pair.refresh, elsewhere(), token(5)), Err(AuthError::InvalidRefresh));
    assert!(store.refresh_token(token(5)).is_none());
    assert_eq!(store.session(pair.session).unwrap().phase, SessionPhase::Active);
}

#[test]
fn rotate_with_issued_replacement_is_an_internal_failure() {
    let mut store = store_with_alice();
    let pair = store.login("alice", "correct-pw", home(), grant(0x51, 0x71)).unwrap();
    let other = store.login("alice", "correct-pw", home(), grant(0x52, 0x81)).unwrap();
    assert_eq!(store.rotate_refresh(pair.session, pair.refresh, home(), other.refresh), Err(AuthError::Internal));
    assert_eq!(store.rotate_refresh(pair.session, pair.refresh, home(), pair.refresh), Err(AuthError::Internal));
    assert!(!store.refresh_token(pair.refresh).unwrap().consumed);
    assert_eq!(refresh_reply(Err(AuthError::Internal)).status, 500);
}

#[test]
fn same_rotation_twice_succeeds_once() {
    let mut store = store_with_alice();
    let pair = store.login("alice", "correct-pw", home(), grant(0x51, 0x71)).unwrap();
    let one = store.rotate_refresh(pair.session, pair.refresh, home(), token(0x72));
    let other = store.rotate_refresh(pair.session, pair.refresh, home(), token(0x73));
    assert_eq!(one, Ok(token(0x72)));
    assert_eq!(other, Err(AuthError::InvalidRefresh));
}

#[test]
fn consumed_token_is_never_issued_again() {
    let mut store = store_with_alice();
    let pair = store.login("alice", "correct-pw", home(), grant(0x51, 0x71)).unwrap();
    store.rotate_refresh(pair.session, pair.refresh, home(), token(0x72)).unwrap();
    assert_eq!(store.rotate_refresh(pair.session, token(0x72), home(), token(0x71)), Err(AuthError::Internal));
    assert_eq!(store.login("alice", "correct-pw", home(), grant(0x53, 0x71)), Err(AuthError::Internal));
    assert!(store.refresh_token(token(0x71)).unwrap().consumed);
}

#[test]
fn expiry_needs_the_instant_to_have_passed() {
    let mut store = store_with_alice();
    let pair = store.login("alice", "correct-pw", home(), grant(0x51, 0x71)).unwrap();
    assert!(!store.expire(pair.session, 999));
    assert_eq!(store.session(pair.session).unwrap().phase, SessionPhase::Active);
    assert!(store.expire(pair.session, 1_000));
    assert_eq!(store.session(pair.session).unwrap().phase, SessionPhase::Expired);
    assert!(!store.expire(pair.session, 2_000));
    assert!(!store.expire(token(0x99), 2_000));
    assert_eq!(store.session(pair.session).unwrap().expires_at, 1_000);
}

#[test]
fn expired_session_is_renewed_by_rotation() {
    let mut store = store_with_alice();
    let pair = store.login("alice", "correct-pw", home(), grant(0x51, 0x71)).unwrap();
    assert!(store.expire(pair.session, 5_000));
    assert_eq!(store.rotate_refresh(pair.session, pair.refresh, home(), token(0x72)), Ok(token(0x72)));
    let session = store.session(pair.session).unwrap();
    assert_eq!(session.phase, SessionPhase::Rotated);
    assert!(session.phase.is_active());
    assert_eq!(session.expires_at, 1_000);
}

#[test]
fn revoked_session_cannot_be_refreshed() {
    let mut store = store_with_alice();
    let pair = store.login("alice", "correct-pw", home(), grant(0x51, 0x71)).unwrap();
    assert!(store.revoke(pair.session));
    assert_eq!(store.session(pair.session).unwrap().phase, SessionPhase::Revoked);
    assert!(store.refresh_token(pair.refresh).unwrap().consumed);
    assert_eq!(store.rotate_refresh(pair.session, pair.refresh, home(), token(0x72)), Err(AuthError::InvalidRefresh));
    assert!(!store.revoke(pair.session));
    assert!(!store.revoke(token(0x99)));
    assert!(!store.expire(pair.session, 5_000));
}

#[test]
fn register_keeps_the_first_password() {
    let mut store = store_with_alice();
    assert!(!store.register("alice", "other-pw"));
    assert!(store.knows("alice", "correct-pw"));
    assert!(!store.knows("alice", "other-pw"));
    assert!(!store.knows("bob", "correct-pw"));
    assert!(store.register("bob", "correct-pw"));
    assert!(store.knows("bob", "correct-pw"));
}

#[test]
fn phases_follow_the_events() {
    assert_eq!(SessionPhase::initial(), SessionPhase::Active);
    assert_eq!(SessionPhase::Active.after(SessionEvent::Expire), SessionPhase::Expired);
    assert_eq!(SessionPhase::Active.after(SessionEvent::Rotate), SessionPhase::Rotated);
    assert_eq!(SessionPhase::Expired.after(SessionEvent::Rotate), SessionPhase::Rotated);
    assert_eq!(SessionPhase::Expired.after(SessionEvent::Expire), SessionPhase::Expired);
    assert_eq!(SessionPhase::Rotated.after(SessionEvent::Rotate), SessionPhase::Rotated);
    assert_eq!(SessionPhase::Rotated.after(SessionEvent::Expire), SessionPhase::Expired);
    assert_eq!(SessionPhase::Rotated.after(SessionEvent::Revoke), SessionPhase::Revoked);
    assert_eq!(SessionPhase::Revoked.after(SessionEvent::Rotate), SessionPhase::Revoked);
    assert_eq!(SessionPhase::Revoked.after(SessionEvent::Expire), SessionPhase::Revoked);
    assert_eq!(SessionPhase::Revoked.after(SessionEvent::Revoke), SessionPhase::Revoked);
    assert!(SessionPhase::Active.is_active());
    assert!(SessionPhase::Rotated.is_active());
    assert!(!SessionPhase::Expired.is_active());
    assert!(!SessionPhase::Revoked.is_active());
}
