//! The session validator: decides, for one loaded record, whether it is
//! fresh, stale-but-valid, expired, or invalid, and applies the refresh or
//! the re-validation stamp.
//!
//! The decision for a record is a pure function of the record, the clock,
//! and the provider's three possible answers; `spec_validate` is that
//! function and `validate_session` computes it.  A `Some((record, dirty))`
//! result means the session survives, with `dirty` saying whether it must
//! be written back; `None` means the session is invalid and must be deleted
//! from both tiers.

use vstd::prelude::*;

use crate::provider::{AccessToken, CallCounts, ScriptedProvider, TokenCheck};
use crate::session_record::{SessionRecord, SessionRecordView};
use crate::user_identity::{
    spec_encode_identity, spec_is_stale, IdentityData, IdentityView,
};

verus! {

/// `ident` with its staleness clock reset to `now`.
pub open spec fn spec_stamped(ident: IdentityView, now: int) -> IdentityView {
    IdentityView { last_accessed: now, ..ident }
}

/// `ident` re-keyed to the grant `tok`: both tokens are replaced together
/// and the staleness clock is reset.
pub open spec fn spec_refreshed(ident: IdentityView, tok: AccessToken, now: int) -> IdentityView {
    IdentityView {
        auth_token: tok.access_token@,
        refresh_token: tok.refresh_token@,
        last_accessed: now,
        ..ident
    }
}

/// `rec` carrying `ident` as its serialized payload.
pub open spec fn spec_record_with(rec: SessionRecordView, ident: IdentityView) -> SessionRecordView {
    SessionRecordView { data: spec_encode_identity(ident), ..rec }
}

/// Outcome of falling back to a refresh: a rewritten, dirty record on a
/// fresh grant; an invalid session when the refresh token was revoked.
pub open spec fn spec_refresh_outcome(
    rec: SessionRecordView,
    ident: IdentityView,
    refresh: Option<AccessToken>,
    now: int,
) -> Option<(SessionRecordView, bool)> {
    match refresh {
        Some(tok) => Some((spec_record_with(rec, spec_refreshed(ident, tok, now)), true)),
        None => None,
    }
}

/// The validator's four-way decision over a loaded record.
///
/// 1. Fresh: valid token, staleness window not exceeded — unchanged, clean.
/// 2. Stale-but-valid: valid token past the window — existence probe; on
///    success the clock is stamped and the record is dirty, on failure the
///    refresh fallback runs.
/// 3. Expired: the refresh fallback runs.
/// 4. Invalid: any other check failure, a failed refresh, or a payload that
///    does not deserialize — no session.
pub open spec fn spec_validate(
    rec: SessionRecordView,
    now: int,
    script: ScriptedProvider,
) -> Option<(SessionRecordView, bool)> {
    match crate::user_identity::spec_decode_identity(rec.data) {
        Some(ident) => match script.check {
            TokenCheck::Valid(_) => if spec_is_stale(ident.last_accessed, now) {
                if script.probe_ok {
                    Some((spec_record_with(rec, spec_stamped(ident, now)), true))
                } else {
                    spec_refresh_outcome(rec, ident, script.refresh, now)
                }
            } else {
                Some((rec, false))
            },
            TokenCheck::Expired => spec_refresh_outcome(rec, ident, script.refresh, now),
            TokenCheck::Invalid => None,
        },
        None => None,
    }
}

/// The provider calls the decision for `rec` makes: always one token check
/// (unless the payload is corrupt), one probe exactly when the record is
/// stale-but-valid, one refresh exactly when expired or when a probe failed.
pub open spec fn spec_validate_counts(
    rec: SessionRecordView,
    now: int,
    script: ScriptedProvider,
) -> (int, int, int) {
    match crate::user_identity::spec_decode_identity(rec.data) {
        Some(ident) => match script.check {
            TokenCheck::Valid(_) => if spec_is_stale(ident.last_accessed, now) {
                if script.probe_ok {
                    (1int, 1int, 0int)
                } else {
                    (1int, 1int, 1int)
                }
            } else {
                (1int, 0int, 0int)
            },
            TokenCheck::Expired => (1int, 0int, 1int),
            TokenCheck::Invalid => (1int, 0int, 0int),
        },
        None => (0int, 0int, 0int),
    }
}

/// Which provider answer the validator is waiting for.
#[derive(Clone, Copy, PartialEq, Eq, Structural, Debug)]
pub enum ValidationPhase {
    AwaitCheck,
    AwaitProbe,
    AwaitRefresh,
}

/// The provider call the validator asks its driver to make next, with the
/// credential to make it with.
#[derive(Debug)]
pub enum ProviderRequest {
    CheckToken(String),
    ProbeUser(String),
    RefreshToken(String),
}

/// The provider's answer to the call the validator asked for.
#[derive(Debug)]
pub enum ProviderReply {
    Checked(TokenCheck),
    Probe(bool),
    Refreshed(Option<AccessToken>),
}

/// One in-flight validation: the decoded identity, the record it came
/// from, and the answer being waited for.
#[derive(Debug)]
pub struct Validation {
    pub identity: IdentityData,
    pub record: SessionRecord,
    pub phase: ValidationPhase,
}

/// What one validator transition produced: the next state together with
/// the provider call to make, or the final decision.
#[derive(Debug)]
pub enum ValidationStep {
    Pending(Validation, ProviderRequest),
    Done(Option<(SessionRecord, bool)>),
}

/// Whether `reply` answers the call that `phase` is waiting for.
pub open spec fn reply_fits(phase: ValidationPhase, reply: ProviderReply) -> bool {
    match (phase, reply) {
        (ValidationPhase::AwaitCheck, ProviderReply::Checked(_)) => true,
        (ValidationPhase::AwaitProbe, ProviderReply::Probe(_)) => true,
        (ValidationPhase::AwaitRefresh, ProviderReply::Refreshed(_)) => true,
        _ => false,
    }
}

/// Starts validating a loaded record: deserializes its identity and asks
/// for the token check, or decides at once that a corrupt payload means no
/// session.
pub fn validate_begin(record: SessionRecord) -> (r: ValidationStep)
    ensures
        match r {
            ValidationStep::Done(out) => out is None && crate::user_identity::spec_decode_identity(
                record@.data,
            ) is None,
            ValidationStep::Pending(v, req) => {
                &&& crate::user_identity::spec_decode_identity(record@.data) == Some(v.identity@)
                &&& v.record@ == record@
                &&& v.phase is AwaitCheck
                &&& req matches ProviderRequest::CheckToken(t) && t@ == v.identity@.auth_token
            },
        },
{
    match IdentityData::from_record_data(&record.data) {
        Some(identity) => {
            let token = identity.auth_token.clone();
            ValidationStep::Pending(
                Validation { identity, record, phase: ValidationPhase::AwaitCheck },
                ProviderRequest::CheckToken(token),
            )
        },
        None => ValidationStep::Done(None),
    }
}

/// One transition of the validator: consumes the provider's answer and
/// either decides, or asks for the next call.  The transitions follow the
/// four-way decision of `spec_validate`: a valid token within the window
/// is fresh; a valid token past it needs an existence probe; an expired
/// token, or a failed probe, falls back to a refresh; anything else, or a
/// failed refresh, invalidates the session.
pub fn validate_step(v: Validation, reply: ProviderReply, now: i64) -> (r: ValidationStep)
    requires
        reply_fits(v.phase, reply),
    ensures
        match (v.phase, reply) {
            (ValidationPhase::AwaitCheck, ProviderReply::Checked(chk)) => match chk {
                TokenCheck::Valid(_) => if spec_is_stale(v.identity@.last_accessed, now as int) {
                    r matches ValidationStep::Pending(v2, req) && ({
                        &&& v2.identity@ == v.identity@
                        &&& v2.record@ == v.record@
                        &&& v2.phase is AwaitProbe
                        &&& req matches ProviderRequest::ProbeUser(t) && t@
                            == v.identity@.auth_token
                    })
                } else {
                    r matches ValidationStep::Done(out) && match out {
                        Some((rec, d)) => rec@ == v.record@ && d == false,
                        None => false,
                    }
                },
                TokenCheck::Expired => r matches ValidationStep::Pending(v2, req) && ({
                    &&& v2.identity@ == v.identity@
                    &&& v2.record@ == v.record@
                    &&& v2.phase is AwaitRefresh
                    &&& req matches ProviderRequest::RefreshToken(t) && t@
                        == v.identity@.refresh_token
                }),
                TokenCheck::Invalid => r matches ValidationStep::Done(out) && out is None,
            },
            (ValidationPhase::AwaitProbe, ProviderReply::Probe(ok)) => if ok {
                r matches ValidationStep::Done(out) && match out {
                    Some((rec, d)) => rec@ == spec_record_with(
                        v.record@,
                        spec_stamped(v.identity@, now as int),
                    ) && d == true,
                    None => false,
                }
            } else {
                r matches ValidationStep::Pending(v2, req) && ({
                    &&& v2.identity@ == v.identity@
                    &&& v2.record@ == v.record@
                    &&& v2.phase is AwaitRefresh
                    &&& req matches ProviderRequest::RefreshToken(t) && t@
                        == v.identity@.refresh_token
                })
            },
            (ValidationPhase::AwaitRefresh, ProviderReply::Refreshed(refreshed)) => match r {
                ValidationStep::Done(out) => match out {
                    Some((rec, d)) => spec_refresh_outcome(
                        v.record@,
                        v.identity@,
                        refreshed,
                        now as int,
                    ) == Some((rec@, d)),
                    None => spec_refresh_outcome(v.record@, v.identity@, refreshed, now as int)
                        is None,
                },
                _ => false,
            },
            _ => true,
        },
{
    let Validation { identity, record, phase } = v;
    match phase {
        ValidationPhase::AwaitCheck => match reply {
            ProviderReply::Checked(chk) => match chk {
                TokenCheck::Valid(_) => {
                    if identity.should_refetch_user(now) {
                        let token = identity.auth_token.clone();
                        ValidationStep::Pending(
                            Validation { identity, record, phase: ValidationPhase::AwaitProbe },
                            ProviderRequest::ProbeUser(token),
                        )
                    } else {
                        ValidationStep::Done(Some((record, false)))
                    }
                },
                TokenCheck::Expired => {
                    let token = identity.refresh_token.clone();
                    ValidationStep::Pending(
                        Validation { identity, record, phase: ValidationPhase::AwaitRefresh },
                        ProviderRequest::RefreshToken(token),
                    )
                },
                TokenCheck::Invalid => ValidationStep::Done(None),
            },
            _ => ValidationStep::Done(None),
        },
        ValidationPhase::AwaitProbe => match reply {
            ProviderReply::Probe(ok) => {
                if ok {
                    let stamped = IdentityData { last_accessed: now, ..identity };
                    assert(stamped@ == spec_stamped(v.identity@, now as int));
                    let data = stamped.into_record_data();
                    let rec2 = SessionRecord { data, ..record };
                    ValidationStep::Done(Some((rec2, true)))
                } else {
                    let token = identity.refresh_token.clone();
                    ValidationStep::Pending(
                        Validation { identity, record, phase: ValidationPhase::AwaitRefresh },
                        ProviderRequest::RefreshToken(token),
                    )
                }
            },
            _ => ValidationStep::Done(None),
        },
        ValidationPhase::AwaitRefresh => match reply {
            ProviderReply::Refreshed(refreshed) => ValidationStep::Done(
                refresh_session_token(identity, record, &refreshed, now),
            ),
            _ => ValidationStep::Done(None),
        },
    }
}

/// Exchanges the record's grant for the fresh one in `refreshed`, if the
/// provider issued one: both token fields are replaced together, the clock
/// is stamped, and the record is marked dirty.
pub fn refresh_session_token(
    identity: IdentityData,
    record: SessionRecord,
    refreshed: &Option<AccessToken>,
    now: i64,
) -> (r: Option<(SessionRecord, bool)>)
    ensures
        match r {
            Some((rec2, d)) => spec_refresh_outcome(record@, identity@, *refreshed, now as int)
                == Some((rec2@, d)),
            None => spec_refresh_outcome(record@, identity@, *refreshed, now as int) is None,
        },
{
    match refreshed {
        Some(tok) => {
            let updated = IdentityData {
                auth_token: tok.access_token.clone(),
                refresh_token: tok.refresh_token.clone(),
                last_accessed: now,
                ..identity
            };
            assert(updated@ == spec_refreshed(identity@, *tok, now as int));
            let data = updated.into_record_data();
            let rec2 = SessionRecord { data, ..record };
            Some((rec2, true))
        },
        None => None,
    }
}

/// Runs the validator over `record` with the provider's scripted answers,
/// returning the decision together with how many calls of each kind were
/// made.
pub fn validate_session(record: SessionRecord, now: i64, script: &ScriptedProvider) -> (r: (
    Option<(SessionRecord, bool)>,
    CallCounts,
))
    ensures
        match r.0 {
            Some((rec2, d)) => spec_validate(record@, now as int, *script) == Some((rec2@, d)),
            None => spec_validate(record@, now as int, *script) is None,
        },
        (r.1.checks as int, r.1.probes as int, r.1.refreshes as int) == spec_validate_counts(
            record@,
            now as int,
            *script,
        ),
        r.1.checks <= 1 && r.1.probes <= 1 && r.1.refreshes <= 1,
{
    let ghost rec0 = record@;
    let v0 = match validate_begin(record) {
        ValidationStep::Done(out) => {
            return (out, CallCounts::zero());
        },
        ValidationStep::Pending(v, _req) => v,
    };
    match validate_step(v0, ProviderReply::Checked(script.check.duplicate()), now) {
        ValidationStep::Done(out) => (out, CallCounts { checks: 1, probes: 0, refreshes: 0 }),
        ValidationStep::Pending(v1, req) => match req {
            ProviderRequest::ProbeUser(_) => {
                match validate_step(v1, ProviderReply::Probe(script.probe_ok), now) {
                    ValidationStep::Done(out) => (
                        out,
                        CallCounts { checks: 1, probes: 1, refreshes: 0 },
                    ),
                    ValidationStep::Pending(v2, _req2) => {
                        let refreshed = duplicate_refresh(&script.refresh);
                        match validate_step(v2, ProviderReply::Refreshed(refreshed), now) {
                            ValidationStep::Done(out) => (
                                out,
                                CallCounts { checks: 1, probes: 1, refreshes: 1 },
                            ),
                            ValidationStep::Pending(_, _) => {
                                assert(false);
                                (None, CallCounts::zero())
                            },
                        }
                    },
                }
            },
            ProviderRequest::RefreshToken(_) => {
                let refreshed = duplicate_refresh(&script.refresh);
                match validate_step(v1, ProviderReply::Refreshed(refreshed), now) {
                    ValidationStep::Done(out) => (
                        out,
                        CallCounts { checks: 1, probes: 0, refreshes: 1 },
                    ),
                    ValidationStep::Pending(_, _) => {
                        assert(false);
                        (None, CallCounts::zero())
                    },
                }
            },
            ProviderRequest::CheckToken(_) => {
                assert(false);
                (None, CallCounts::zero())
            },
        },
    }
}

/// A copy of a scripted refresh answer whose grant carries the same
/// values.
fn duplicate_refresh(refresh: &Option<AccessToken>) -> (r: Option<AccessToken>)
    ensures
        match *refresh {
            Some(tok) => r matches Some(t2) && t2.access_token@ == tok.access_token@
                && t2.refresh_token@ == tok.refresh_token@ && t2.user_id@ == tok.user_id@
                && t2.email@ == tok.email@,
            None => r is None,
        },
{
    match refresh {
        Some(t) => Some(t.duplicate()),
        None => None,
    }
}

} // verus!
