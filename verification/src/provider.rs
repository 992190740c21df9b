//! Plain-value forms of what the identity provider hands back.
//!
//! Provider calls are asynchronous network I/O and happen outside the
//! library; their results come in through these types.  A `ScriptedProvider`
//! fixes one answer per kind of call, which is how a validation pass is
//! driven deterministically.

use vstd::prelude::*;

use crate::user_identity::AssuranceLevel;

verus! {

/// The claims the provider certifies when it validates a token.
#[derive(Debug)]
pub struct Claims {
    /// The provider's own session identifier, embedded in the token.
    pub session_id: String,
    /// The assurance level the token was issued under.
    pub aal: AssuranceLevel,
}

impl Claims {
    /// An exact copy; every field keeps its value.
    pub fn duplicate(&self) -> (r: Claims)
        ensures
            r.session_id@ == self.session_id@,
            r.aal == self.aal,
    {
        Claims { session_id: self.session_id.clone(), aal: self.aal }
    }
}

/// One token grant: an access/refresh pair issued together, plus the
/// account it belongs to.
#[derive(Debug)]
pub struct AccessToken {
    pub access_token: String,
    pub refresh_token: String,
    pub user_id: String,
    pub email: String,
}

impl AccessToken {
    /// An exact copy; every field keeps its value.
    pub fn duplicate(&self) -> (r: AccessToken)
        ensures
            r.access_token@ == self.access_token@,
            r.refresh_token@ == self.refresh_token@,
            r.user_id@ == self.user_id@,
            r.email@ == self.email@,
    {
        AccessToken {
            access_token: self.access_token.clone(),
            refresh_token: self.refresh_token.clone(),
            user_id: self.user_id.clone(),
            email: self.email.clone(),
        }
    }
}

/// What the provider said about a token.
#[derive(Debug)]
pub enum TokenCheck {
    /// Structurally and cryptographically valid; the claims were read.
    Valid(Claims),
    /// The token's signature is valid but its lifetime is over.
    Expired,
    /// Any other validation failure.
    Invalid,
}

impl TokenCheck {
    /// An exact copy; the verdict and any claims keep their values.
    pub fn duplicate(&self) -> (r: TokenCheck)
        ensures
            match *self {
                TokenCheck::Valid(_) => r is Valid,
                TokenCheck::Expired => r is Expired,
                TokenCheck::Invalid => r is Invalid,
            },
    {
        match self {
            TokenCheck::Valid(c) => TokenCheck::Valid(c.duplicate()),
            TokenCheck::Expired => TokenCheck::Expired,
            TokenCheck::Invalid => TokenCheck::Invalid,
        }
    }
}

/// One fixed answer per kind of provider call, used to drive a validation
/// pass deterministically.
#[derive(Debug)]
pub struct ScriptedProvider {
    /// Answer to a token validation call.
    pub check: TokenCheck,
    /// Answer to an account existence probe.
    pub probe_ok: bool,
    /// Answer to a refresh call: a fresh grant, or `None` when the refresh
    /// token was revoked or already rotated.
    pub refresh: Option<AccessToken>,
}

/// How many provider calls of each kind one operation made.
#[derive(Debug, PartialEq, Eq, Structural, Clone, Copy)]
pub struct CallCounts {
    pub checks: u64,
    pub probes: u64,
    pub refreshes: u64,
}

impl CallCounts {
    /// No calls yet.
    pub fn zero() -> (r: CallCounts)
        ensures
            r.checks == 0 && r.probes == 0 && r.refreshes == 0,
    {
        CallCounts { checks: 0, probes: 0, refreshes: 0 }
    }
}

} // verus!
