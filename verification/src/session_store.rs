//! The two-tier session store: a bounded local cache in front of the
//! authoritative durable row table.
//!
//! `load` checks the cache first, runs the validator over whatever record
//! it finds, and writes the outcome through: a dirty record goes to both
//! tiers, a record read from the durable tier repopulates the cache, an
//! invalid session is deleted from both tiers and reported as absent.
//! `save` writes through both tiers; `create` performs the link-on-first-
//! write against the provider's pre-inserted row; `delete` clears both
//! tiers.  Every operation is total over the in-memory tiers; the provider
//! answers arrive as plain values (see `provider`).

use vstd::prelude::*;

use crate::cache::{spec_cache_delete, spec_cache_find, spec_cache_save, SessionCache};
use crate::provider::{AccessToken, CallCounts, ScriptedProvider, TokenCheck};
use crate::session_record::{SessionRecord, SessionRecordView};
use crate::table::{
    spec_pos_by_app, spec_pos_by_sb, spec_table_delete, spec_table_get_by_app,
    spec_table_get_by_sb, spec_table_link, spec_table_provider_insert, spec_table_upsert,
    SessionRow, SessionRowView, SessionTable,
};
use crate::auth::AppUser;
use crate::error::{AuthError, ErrorKind, ErrorKindView, PostgrestError, SupabaseError};
use crate::user_identity::{
    expiry_or_default, spec_decode_identity, spec_encode_identity, spec_expiry_or_default,
    AssuranceLevel, IdentityData, IdentityView,
};
use crate::validator::{spec_validate, spec_validate_counts, validate_session};
use vstd::string::StringExecFns;

verus! {

/// Why a `create` was refused.
#[derive(Debug, PartialEq, Eq, Structural, Clone, Copy)]
pub enum StoreError {
    /// The record's payload does not deserialize to an identity.
    CorruptPayload,
    /// The record's token did not validate, so no provider session
    /// identifier could be extracted.
    InvalidToken,
}

/// `ident` after a step-up: re-keyed to the elevated grant, second factor
/// recorded, assurance level taken from the new token's claims, clock
/// stamped.
pub open spec fn spec_elevated(
    ident: IdentityView,
    tok: AccessToken,
    aal: AssuranceLevel,
    now: int,
) -> IdentityView {
    IdentityView {
        auth_token: tok.access_token@,
        refresh_token: tok.refresh_token@,
        last_accessed: now,
        has_mfa: true,
        aal: aal,
        ..ident
    }
}

/// Sum of two call-count triples.
pub open spec fn spec_counts_add(a: (int, int, int), b: (int, int, int)) -> (int, int, int) {
    (a.0 + b.0, a.1 + b.1, a.2 + b.2)
}

/// Everything `load` leaves behind: both tiers, the result, and the
/// provider calls made.
pub struct LoadModel {
    pub cache: Seq<SessionRecordView>,
    pub table: Seq<SessionRowView>,
    pub result: Option<SessionRecordView>,
    pub counts: (int, int, int),
}

/// The durable phase of a load: consulted when the cache missed or its
/// record did not survive validation.  A missing row cleans both tiers; a
/// found row is rebuilt into a record, validated, and written back — to
/// both tiers when dirty, only into the cache when clean.
pub open spec fn spec_load_durable(
    c: Seq<SessionRecordView>,
    t: Seq<SessionRowView>,
    cap: int,
    id: Seq<char>,
    now: int,
    script: ScriptedProvider,
    n0: (int, int, int),
) -> LoadModel {
    match spec_table_get_by_app(t, id) {
        None => LoadModel {
            cache: spec_cache_delete(c, id),
            table: spec_table_delete(t, id),
            result: None,
            counts: n0,
        },
        Some(row) => {
            let data = match row.data {
                Some(d) => d,
                None => Seq::<char>::empty(),
            };
            let rec = SessionRecordView {
                id: id,
                data: data,
                expiry_date: spec_expiry_or_default(row.expiry_date, now),
            };
            let n = spec_counts_add(n0, spec_validate_counts(rec, now, script));
            match spec_validate(rec, now, script) {
                Some((r1, true)) => LoadModel {
                    cache: spec_cache_save(c, cap, r1),
                    table: spec_table_upsert(t, r1.id, r1.data, r1.expiry_date, now),
                    result: Some(r1),
                    counts: n,
                },
                Some((r1, false)) => LoadModel {
                    cache: spec_cache_save(c, cap, r1),
                    table: t,
                    result: Some(r1),
                    counts: n,
                },
                None => LoadModel {
                    cache: spec_cache_delete(c, id),
                    table: spec_table_delete(t, id),
                    result: None,
                    counts: n,
                },
            }
        },
    }
}

/// The whole load pipeline: cache phase first, then the durable phase when
/// the cache missed or its record did not survive validation.
pub open spec fn spec_load(
    c: Seq<SessionRecordView>,
    t: Seq<SessionRowView>,
    cap: int,
    id: Seq<char>,
    now: int,
    script: ScriptedProvider,
) -> LoadModel {
    match spec_cache_find(c, id) {
        Some(r0) => {
            let n = spec_validate_counts(r0, now, script);
            match spec_validate(r0, now, script) {
                Some((r1, true)) => LoadModel {
                    cache: spec_cache_save(c, cap, r1),
                    table: spec_table_upsert(t, r1.id, r1.data, r1.expiry_date, now),
                    result: Some(r1),
                    counts: n,
                },
                Some((r1, false)) => LoadModel { cache: c, table: t, result: Some(r1), counts: n },
                None => spec_load_durable(c, t, cap, id, now, script, n),
            }
        },
        None => spec_load_durable(c, t, cap, id, now, script, (0int, 0int, 0int)),
    }
}

/// The shared core of the session subsystem: both storage tiers.
#[derive(Debug)]
pub struct SupabaseBackend {
    sessions_cache: SessionCache,
    sessions_table: SessionTable,
}

impl SupabaseBackend {
    pub closed spec fn cache_view(&self) -> Seq<SessionRecordView> {
        self.sessions_cache@
    }

    pub closed spec fn table_view(&self) -> Seq<SessionRowView> {
        self.sessions_table@
    }

    pub closed spec fn cache_capacity(&self) -> int {
        self.sessions_cache.spec_capacity()
    }

    /// Both tiers satisfy their structural invariants.
    pub closed spec fn wf(&self) -> bool {
        self.sessions_cache.wf() && self.sessions_table.wf()
    }

    /// A backend over the given cache and an empty durable table.
    pub fn new(sessions_cache: SessionCache) -> (r: SupabaseBackend)
        requires
            sessions_cache.wf(),
        ensures
            r.wf(),
            r.cache_view() == sessions_cache@,
            r.table_view() == Seq::<SessionRowView>::empty(),
            r.cache_capacity() == sessions_cache.spec_capacity(),
    {
        SupabaseBackend { sessions_cache, sessions_table: SessionTable::new() }
    }

    /// Models the provider's trigger inserting its placeholder row when a
    /// provider session `sb` comes into being at sign-in time.
    pub fn record_provider_session(&mut self, sb: &String, expiry: Option<i64>)
        requires
            old(self).wf(),
            spec_pos_by_sb(old(self).table_view(), sb@) is None,
        ensures
            final(self).wf(),
            final(self).cache_view() == old(self).cache_view(),
            final(self).cache_capacity() == old(self).cache_capacity(),
            final(self).table_view() == spec_table_provider_insert(
                old(self).table_view(),
                sb@,
                match expiry {
                    Some(t) => Some(t as int),
                    None => None,
                },
            ),
    {
        self.sessions_table.provider_insert(sb, expiry);
    }

    /// How many rows the durable tier holds.
    pub fn session_row_count(&self) -> (n: usize)
        ensures
            n as nat == self.table_view().len(),
    {
        self.sessions_table.row_count()
    }

    /// The durable row linked to `id`, if any.
    pub fn durable_row(&self, id: &String) -> (r: Option<SessionRow>)
        ensures
            match r {
                Some(row) => spec_table_get_by_app(self.table_view(), id@) == Some(row@),
                None => spec_table_get_by_app(self.table_view(), id@) is None,
            },
    {
        self.sessions_table.get_by_app(id)
    }

    /// The cached record under `id`, if any; reads only the cache tier.
    pub fn cached_record(&self, id: &String) -> (r: Option<SessionRecord>)
        ensures
            match r {
                Some(rec) => spec_cache_find(self.cache_view(), id@) == Some(rec@),
                None => spec_cache_find(self.cache_view(), id@) is None,
            },
    {
        self.sessions_cache.load(id)
    }

    /// Drops the cached copy of `id` without touching the durable tier:
    /// what an eviction does.
    pub fn evict_cached(&mut self, id: &String)
        requires
            old(self).wf(),
        ensures
            final(self).wf(),
            final(self).cache_view() == spec_cache_delete(old(self).cache_view(), id@),
            final(self).table_view() == old(self).table_view(),
            final(self).cache_capacity() == old(self).cache_capacity(),
    {
        self.sessions_cache.delete(id);
    }

    /// Writes `record` through both tiers: into the cache and as an upsert
    /// of the durable row linked to its identifier, stamped with `now`.
    pub fn save(&mut self, record: &SessionRecord, now: i64)
        requires
            old(self).wf(),
        ensures
            final(self).wf(),
            final(self).cache_capacity() == old(self).cache_capacity(),
            final(self).cache_view() == spec_cache_save(
                old(self).cache_view(),
                old(self).cache_capacity(),
                record@,
            ),
            final(self).table_view() == spec_table_upsert(
                old(self).table_view(),
                record@.id,
                record@.data,
                record@.expiry_date,
                now as int,
            ),
    {
        self.sessions_cache.save(record);
        self.sessions_table.upsert_by_app(&record.id, &record.data, record.expiry_date, now);
    }

    /// Removes the session from both tiers.
    pub fn delete(&mut self, id: &String)
        requires
            old(self).wf(),
        ensures
            final(self).wf(),
            final(self).cache_capacity() == old(self).cache_capacity(),
            final(self).cache_view() == spec_cache_delete(old(self).cache_view(), id@),
            final(self).table_view() == spec_table_delete(old(self).table_view(), id@),
    {
        self.sessions_cache.delete(id);
        self.sessions_table.delete_by_app(id);
    }

    /// First write of a new session.  The provider pre-inserted a durable
    /// row keyed by its own session identifier at sign-in time, so the
    /// record's token claims are read and the matching row is updated in
    /// place rather than a second row inserted; only when no such row
    /// exists is a fresh row written.  A record whose payload does not
    /// deserialize, or whose token did not validate, is refused by name
    /// and changes nothing.
    pub fn create(&mut self, record: &SessionRecord, check: &TokenCheck) -> (r: Result<
        (),
        StoreError,
    >)
        requires
            old(self).wf(),
            spec_pos_by_app(old(self).table_view(), record@.id) is None,
        ensures
            final(self).wf(),
            final(self).cache_capacity() == old(self).cache_capacity(),
            match r {
                Ok(_) => {
                    &&& spec_decode_identity(record@.data) is Some
                    &&& match *check {
                        TokenCheck::Valid(c) => {
                            &&& final(self).cache_view() == spec_cache_save(
                                old(self).cache_view(),
                                old(self).cache_capacity(),
                                record@,
                            )
                            &&& final(self).table_view() == spec_table_link(
                                old(self).table_view(),
                                c.session_id@,
                                record@.id,
                                record@.data,
                                record@.expiry_date,
                            )
                        },
                        _ => false,
                    }
                },
                Err(StoreError::CorruptPayload) => {
                    &&& spec_decode_identity(record@.data) is None
                    &&& final(self).cache_view() == old(self).cache_view()
                    &&& final(self).table_view() == old(self).table_view()
                },
                Err(StoreError::InvalidToken) => {
                    &&& spec_decode_identity(record@.data) is Some
                    &&& !(*check matches TokenCheck::Valid(_))
                    &&& final(self).cache_view() == old(self).cache_view()
                    &&& final(self).table_view() == old(self).table_view()
                },
            },
    {
        if IdentityData::from_record_data(&record.data).is_none() {
            return Err(StoreError::CorruptPayload);
        }
        let claims = match check {
            TokenCheck::Valid(c) => c,
            _ => {
                return Err(StoreError::InvalidToken);
            },
        };
        self.sessions_cache.create(record);
        self.sessions_table.link_by_sb(&claims.session_id, &record.id, &record.data, record.expiry_date);
        Ok(())
    }

    /// Loads the session under `id`: cache first, validator, then the
    /// durable tier; outcomes are written through as the validator decided.
    /// `None` is a normal outcome — the session does not exist or was
    /// invalidated — never an error.
    pub fn load(&mut self, id: &String, now: i64, script: &ScriptedProvider) -> (r: (
        Option<SessionRecord>,
        CallCounts,
    ))
        requires
            old(self).wf(),
        ensures
            final(self).wf(),
            final(self).cache_capacity() == old(self).cache_capacity(),
            ({
                let m = spec_load(
                    old(self).cache_view(),
                    old(self).table_view(),
                    old(self).cache_capacity(),
                    id@,
                    now as int,
                    *script,
                );
                &&& final(self).cache_view() == m.cache
                &&& final(self).table_view() == m.table
                &&& match r.0 {
                    Some(rec) => m.result == Some(rec@),
                    None => m.result is None,
                }
                &&& (r.1.checks as int, r.1.probes as int, r.1.refreshes as int) == m.counts
            }),
    {
        match self.sessions_cache.load(id) {
            Some(rec0) => {
                let (out, counts) = validate_session(rec0, now, script);
                match out {
                    Some(pair) => {
                        let (rec1, dirty) = pair;
                        if dirty {
                            self.save(&rec1, now);
                        }
                        (Some(rec1), counts)
                    },
                    None => self.load_durable(id, now, script, counts),
                }
            },
            None => self.load_durable(id, now, script, CallCounts::zero()),
        }
    }

    /// The identity `new_session` builds: defined exactly when the token
    /// validated and the provider's pre-inserted row was found under the
    /// claimed provider session identifier.
    pub open spec fn new_session_model(
        &self,
        token: AccessToken,
        check: TokenCheck,
        now: int,
    ) -> Option<IdentityView> {
        match check {
            TokenCheck::Valid(c) => match spec_table_get_by_sb(self.table_view(), c.session_id@) {
                Some(row) => Some(
                    IdentityView {
                        auth_token: token.access_token@,
                        refresh_token: token.refresh_token@,
                        expiry_date: spec_expiry_or_default(row.expiry_date, now),
                        last_accessed: now,
                        user_id: token.user_id@,
                        email: token.email@,
                        has_mfa: false,
                        aal: c.aal,
                    },
                ),
                None => None,
            },
            _ => None,
        }
    }

    /// Opens a session for a freshly issued grant: validates the token's
    /// claims, reads the expiry of the provider's pre-inserted row, and
    /// builds the identity the middleware will open a session for.
    /// `has_mfa` starts false — the caller queries factor status
    /// separately; the assurance level is the one the token was issued
    /// under.
    pub fn new_session(&self, access_token: &AccessToken, check: &TokenCheck, now: i64) -> (r:
        Result<AppUser, SupabaseError>)
        ensures
            match r {
                Ok(user) => self.new_session_model(*access_token, *check, now as int) == Some(
                    user.identity@,
                ),
                Err(e) => {
                    &&& self.new_session_model(*access_token, *check, now as int) is None
                    &&& match *check {
                        TokenCheck::Valid(c) => {
                            &&& spec_table_get_by_sb(self.table_view(), c.session_id@) is None
                            &&& e@.http_status == 404
                            &&& e@.kind matches ErrorKindView::Postgrest(p) && p.message
                                == "Found {{0}} rows matching the query"@
                        },
                        _ => {
                            &&& e@.http_status == 403
                            &&& e@.kind matches ErrorKindView::Auth(a) && a.msg == Some(
                                "Invalid Token"@,
                            )
                        },
                    }
                },
            },
    {
        let claims = match check {
            TokenCheck::Valid(c) => c,
            _ => {
                return Err(
                    SupabaseError {
                        http_status: 403,
                        kind: ErrorKind::Auth(
                            AuthError {
                                msg: Some(String::from_str("Invalid Token")),
                                error_description: None,
                            },
                        ),
                    },
                );
            },
        };
        match self.sessions_table.get_by_sb(&claims.session_id) {
            Some(row) => {
                let identity = IdentityData {
                    auth_token: access_token.access_token.clone(),
                    refresh_token: access_token.refresh_token.clone(),
                    expiry_date: expiry_or_default(row.expiry_date, now),
                    last_accessed: now,
                    user_id: access_token.user_id.clone(),
                    email: access_token.email.clone(),
                    has_mfa: false,
                    aal: claims.aal,
                };
                Ok(AppUser { identity })
            },
            None => Err(
                SupabaseError {
                    http_status: 404,
                    kind: ErrorKind::Postgrest(
                        PostgrestError {
                            message: String::from_str("Found {{0}} rows matching the query"),
                            code: String::new(),
                        },
                    ),
                },
            ),
        }
    }

    /// Applies a step-up grant to the session `session_id`, synchronously:
    /// both token fields are replaced together, `has_mfa` becomes true, the
    /// assurance level becomes the one certified by the new token's claims,
    /// and the rewritten record is written through — the durable write
    /// completes before this returns.  A grant whose claims did not
    /// validate is refused by name and changes nothing.
    pub fn update_assurance_level(
        &mut self,
        session_id: &String,
        identity: IdentityData,
        token: &AccessToken,
        check: &TokenCheck,
        now: i64,
    ) -> (r: Result<(), SupabaseError>)
        requires
            old(self).wf(),
        ensures
            final(self).wf(),
            final(self).cache_capacity() == old(self).cache_capacity(),
            match r {
                Ok(_) => match *check {
                    TokenCheck::Valid(c) => {
                        let elevated = spec_elevated(identity@, *token, c.aal, now as int);
                        &&& final(self).cache_view() == spec_cache_save(
                            old(self).cache_view(),
                            old(self).cache_capacity(),
                            SessionRecordView {
                                id: session_id@,
                                data: spec_encode_identity(elevated),
                                expiry_date: identity@.expiry_date,
                            },
                        )
                        &&& final(self).table_view() == spec_table_upsert(
                            old(self).table_view(),
                            session_id@,
                            spec_encode_identity(elevated),
                            identity@.expiry_date,
                            now as int,
                        )
                    },
                    _ => false,
                },
                Err(e) => {
                    &&& !(*check matches TokenCheck::Valid(_))
                    &&& e@.http_status == 403
                    &&& e@.kind matches ErrorKindView::Auth(a) && a.msg == Some("Invalid Token"@)
                    &&& final(self).cache_view() == old(self).cache_view()
                    &&& final(self).table_view() == old(self).table_view()
                },
            },
    {
        let claims = match check {
            TokenCheck::Valid(c) => c,
            _ => {
                return Err(
                    SupabaseError {
                        http_status: 403,
                        kind: ErrorKind::Auth(
                            AuthError {
                                msg: Some(String::from_str("Invalid Token")),
                                error_description: None,
                            },
                        ),
                    },
                );
            },
        };
        let updated = IdentityData {
            auth_token: token.access_token.clone(),
            refresh_token: token.refresh_token.clone(),
            last_accessed: now,
            has_mfa: true,
            aal: claims.aal,
            ..identity
        };
        assert(updated@ == spec_elevated(identity@, *token, claims.aal, now as int));
        let record = updated.into_session_record(session_id);
        self.save(&record, now);
        Ok(())
    }

    /// The durable phase of `load`.
    fn load_durable(&mut self, id: &String, now: i64, script: &ScriptedProvider, n0: CallCounts)
        -> (r: (Option<SessionRecord>, CallCounts))
        requires
            old(self).wf(),
            n0.checks <= 1 && n0.probes <= 1 && n0.refreshes <= 1,
        ensures
            final(self).wf(),
            final(self).cache_capacity() == old(self).cache_capacity(),
            ({
                let m = spec_load_durable(
                    old(self).cache_view(),
                    old(self).table_view(),
                    old(self).cache_capacity(),
                    id@,
                    now as int,
                    *script,
                    (n0.checks as int, n0.probes as int, n0.refreshes as int),
                );
                &&& final(self).cache_view() == m.cache
                &&& final(self).table_view() == m.table
                &&& match r.0 {
                    Some(rec) => m.result == Some(rec@),
                    None => m.result is None,
                }
                &&& (r.1.checks as int, r.1.probes as int, r.1.refreshes as int) == m.counts
            }),
    {
        match self.sessions_table.get_by_app(id) {
            None => {
                self.delete(id);
                (None, n0)
            },
            Some(row) => {
                let data = match row.data {
                    Some(d) => d,
                    None => Vec::new(),
                };
                let expiry = expiry_or_default(row.expiry_date, now);
                let rec = SessionRecord { id: id.clone(), data, expiry_date: expiry };
                let (out, c2) = validate_session(rec, now, script);
                let counts = CallCounts {
                    checks: n0.checks + c2.checks,
                    probes: n0.probes + c2.probes,
                    refreshes: n0.refreshes + c2.refreshes,
                };
                match out {
                    Some(pair) => {
                        let (rec1, dirty) = pair;
                        if dirty {
                            self.save(&rec1, now);
                        } else {
                            self.sessions_cache.save(&rec1);
                        }
                        (Some(rec1), counts)
                    },
                    None => {
                        self.delete(id);
                        (None, counts)
                    },
                }
            },
        }
    }
}

} // verus!
