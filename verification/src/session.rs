//! Sessions, their refresh tokens, and the phases a session goes through.

use vstd::prelude::*;
use crate::address::NetworkAddress;
use crate::token::Token;

verus! {

/// Where a session stands in its life.
#[derive(Clone, Copy, Debug, PartialEq, Eq, Structural)]
pub enum SessionPhase {
    /// Issued by a login; the session token is good.
    Active,
    /// The session token went stale; the refresh token is still live.
    Expired,
    /// A refresh succeeded: the session is active again, against the new refresh token.
    Rotated,
    /// The refresh token was consumed and none was issued in its place. Nothing leads out.
    Revoked,
}

/// What can happen to a session after its login.
#[derive(Clone, Copy, Debug, PartialEq, Eq, Structural)]
pub enum SessionEvent {
    /// The expiry of the session token has passed.
    Expire,
    /// A refresh consumed the live refresh token and issued a new one.
    Rotate,
    /// The live refresh token was consumed without a replacement.
    Revoke,
}

impl SessionPhase {
    /// The phase that a login starts a session in.
    pub open spec fn spec_initial() -> SessionPhase {
        SessionPhase::Active
    }

    /// The phase that follows `self` on `event`.
    pub open spec fn spec_after(self, event: SessionEvent) -> SessionPhase {
        match (self, event) {
            (SessionPhase::Revoked, _) => SessionPhase::Revoked,
            (_, SessionEvent::Revoke) => SessionPhase::Revoked,
            (_, SessionEvent::Rotate) => SessionPhase::Rotated,
            (_, SessionEvent::Expire) => SessionPhase::Expired,
        }
    }

    /// Whether the session token of a session in this phase is good: the session is active,
    /// freshly or again after a refresh.
    pub open spec fn spec_is_active(self) -> bool {
        self == SessionPhase::Active || self == SessionPhase::Rotated
    }

    /// The phase that a login starts a session in.
    #[verifier::when_used_as_spec(spec_initial)]
    pub fn initial() -> (phase: SessionPhase)
        ensures
            phase == Self::spec_initial(),
    {
        SessionPhase::Active
    }

    /// The phase that follows `self` on `event`. `Revoked` is final; from every other phase
    /// a revocation leads to `Revoked`, a refresh to `Rotated` and an expiry to `Expired`.
    #[verifier::when_used_as_spec(spec_after)]
    pub fn after(self, event: SessionEvent) -> (next: SessionPhase)
        ensures
            next == self.spec_after(event),
    {
        match (self, event) {
            (SessionPhase::Revoked, _) => SessionPhase::Revoked,
            (_, SessionEvent::Revoke) => SessionPhase::Revoked,
            (_, SessionEvent::Rotate) => SessionPhase::Rotated,
            (_, SessionEvent::Expire) => SessionPhase::Expired,
        }
    }

    /// Whether the session token of a session in this phase is good.
    #[verifier::when_used_as_spec(spec_is_active)]
    pub fn is_active(self) -> (active: bool)
        ensures
            active == self.spec_is_active(),
    {
        match self {
            SessionPhase::Active => true,
            SessionPhase::Rotated => true,
            SessionPhase::Expired => false,
            SessionPhase::Revoked => false,
        }
    }
}

/// An authenticated context, as the store holds it.
#[derive(Clone, Copy, Debug, PartialEq, Eq, Structural)]
pub struct Session {
    /// The bearer credential that names the session.
    pub token: Token,
    /// The network the session was issued to. Fixed at login.
    pub bound_ip: NetworkAddress,
    /// The instant after which the session token is stale. Fixed at login.
    pub expires_at: u64,
    /// Where the session stands.
    pub phase: SessionPhase,
    /// The refresh token paired with the session at this instant.
    pub refresh: Token,
}

/// A single-use credential that renews one session.
#[derive(Clone, Copy, Debug, PartialEq, Eq, Structural)]
pub struct RefreshToken {
    /// The credential itself.
    pub value: Token,
    /// The session it was issued for.
    pub session: Token,
    /// The network it was issued to, at login or at rotation.
    pub bound_ip: NetworkAddress,
    /// Whether it has been used up. A consumed token never validates again.
    pub consumed: bool,
}

/// What a login hands to the client.
#[derive(Clone, Copy, Debug, PartialEq, Eq, Structural)]
pub struct TokenPair {
    /// The session token.
    pub session: Token,
    /// The first refresh token of the session.
    pub refresh: Token,
}

/// The values a login is to issue, drawn by the caller. Tokens must come from a
/// cryptographically secure random source with at least 122 bits of entropy; the store
/// checks only that they were never issued before.
#[derive(Clone, Copy, Debug, PartialEq, Eq, Structural)]
pub struct Grant {
    /// The session token to issue.
    pub session: Token,
    /// The refresh token to issue with it.
    pub refresh: Token,
    /// The instant after which the session token is stale.
    pub expires_at: u64,
}

/// `Revoked` is final, and a refresh brings every other phase back to an active one.
pub proof fn lemma_phase_machine(phase: SessionPhase, event: SessionEvent)
    ensures
        SessionPhase::spec_initial().spec_is_active(),
        SessionPhase::Revoked.spec_after(event) == SessionPhase::Revoked,
        phase != SessionPhase::Revoked ==> phase.spec_after(SessionEvent::Rotate).spec_is_active(),
        phase.spec_after(event) == SessionPhase::Revoked <==> (phase == SessionPhase::Revoked
            || event == SessionEvent::Revoke),
{
}

} // verus!
