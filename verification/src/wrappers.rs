//! The two adapter types that present one shared core as the two
//! capability interfaces the embedding consumes: a session store and an
//! authentication backend.  Each adapter delegates to the core; neither
//! adds behavior.

use vstd::prelude::*;

use crate::auth::AppUser;
use crate::cache::{spec_cache_delete, spec_cache_save};
use crate::error::SupabaseError;
use crate::provider::{AccessToken, CallCounts, ScriptedProvider, TokenCheck};
use crate::session_record::SessionRecord;
use crate::session_store::{spec_load, SupabaseBackend, StoreError};
use crate::table::{spec_pos_by_app, spec_table_delete, spec_table_link, spec_table_upsert};
use crate::user_identity::{spec_decode_identity, IdentityData};

verus! {

/// Presents the core as the session-store capability.
#[derive(Debug)]
pub struct StoreWrapper<T>(pub T);

/// Presents the core as the authentication-backend capability.
#[derive(Debug)]
pub struct AuthWrapper<T>(pub T);

impl SupabaseBackend {
    /// Hands the core over to its session-store adapter.  The store
    /// capability mutates the tiers, so the adapter owns the core; shared
    /// handles are the embedding's concern.
    pub fn as_session_store(self) -> (r: StoreWrapper<SupabaseBackend>)
        ensures
            r.0 == self,
    {
        StoreWrapper(self)
    }

    /// Borrows the core as its authentication-backend adapter.  The
    /// authentication capability only reads, so any number of these may
    /// exist at once.
    pub fn as_auth_backend<'a>(&'a self) -> (r: AuthWrapper<&'a SupabaseBackend>)
        ensures
            r.0 == self,
    {
        AuthWrapper(self)
    }
}

impl StoreWrapper<SupabaseBackend> {
    /// Delegates to the core's write-through `save`.
    pub fn save(&mut self, record: &SessionRecord, now: i64)
        requires
            old(self).0.wf(),
        ensures
            final(self).0.wf(),
            final(self).0.cache_capacity() == old(self).0.cache_capacity(),
            final(self).0.cache_view() == spec_cache_save(
                old(self).0.cache_view(),
                old(self).0.cache_capacity(),
                record@,
            ),
            final(self).0.table_view() == spec_table_upsert(
                old(self).0.table_view(),
                record@.id,
                record@.data,
                record@.expiry_date,
                now as int,
            ),
    {
        self.0.save(record, now);
    }

    /// Delegates to the core's validating `load`.
    pub fn load(&mut self, id: &String, now: i64, script: &ScriptedProvider) -> (r: (
        Option<SessionRecord>,
        CallCounts,
    ))
        requires
            old(self).0.wf(),
        ensures
            final(self).0.wf(),
            final(self).0.cache_capacity() == old(self).0.cache_capacity(),
            ({
                let m = spec_load(
                    old(self).0.cache_view(),
                    old(self).0.table_view(),
                    old(self).0.cache_capacity(),
                    id@,
                    now as int,
                    *script,
                );
                &&& final(self).0.cache_view() == m.cache
                &&& final(self).0.table_view() == m.table
                &&& match r.0 {
                    Some(rec) => m.result == Some(rec@),
                    None => m.result is None,
                }
                &&& (r.1.checks as int, r.1.probes as int, r.1.refreshes as int) == m.counts
            }),
    {
        self.0.load(id, now, script)
    }

    /// Delegates to the core's two-tier `delete`.
    pub fn delete(&mut self, id: &String)
        requires
            old(self).0.wf(),
        ensures
            final(self).0.wf(),
            final(self).0.cache_capacity() == old(self).0.cache_capacity(),
            final(self).0.cache_view() == spec_cache_delete(old(self).0.cache_view(), id@),
            final(self).0.table_view() == spec_table_delete(old(self).0.table_view(), id@),
    {
        self.0.delete(id);
    }

    /// Delegates to the core's link-on-first-write `create`.
    pub fn create(&mut self, record: &SessionRecord, check: &TokenCheck) -> (r: Result<
        (),
        StoreError,
    >)
        requires
            old(self).0.wf(),
            spec_pos_by_app(old(self).0.table_view(), record@.id) is None,
        ensures
            final(self).0.wf(),
            final(self).0.cache_capacity() == old(self).0.cache_capacity(),
            match r {
                Ok(_) => {
                    &&& spec_decode_identity(record@.data) is Some
                    &&& match *check {
                        TokenCheck::Valid(c) => {
                            &&& final(self).0.cache_view() == spec_cache_save(
                                old(self).0.cache_view(),
                                old(self).0.cache_capacity(),
                                record@,
                            )
                            &&& final(self).0.table_view() == spec_table_link(
                                old(self).0.table_view(),
                                c.session_id@,
                                record@.id,
                                record@.data,
                                record@.expiry_date,
                            )
                        },
                        _ => false,
                    }
                },
                Err(StoreError::CorruptPayload) => {
                    &&& spec_decode_identity(record@.data) is None
                    &&& final(self).0.cache_view() == old(self).0.cache_view()
                    &&& final(self).0.table_view() == old(self).0.table_view()
                },
                Err(StoreError::InvalidToken) => {
                    &&& spec_decode_identity(record@.data) is Some
                    &&& !(*check matches TokenCheck::Valid(_))
                    &&& final(self).0.cache_view() == old(self).0.cache_view()
                    &&& final(self).0.table_view() == old(self).0.table_view()
                },
            },
    {
        self.0.create(record, check)
    }
}

impl<'a> AuthWrapper<&'a SupabaseBackend> {
    /// Delegates to the core's authentication gateway.
    pub fn authenticate(
        &self,
        signed_in: Result<AccessToken, SupabaseError>,
        check: &TokenCheck,
        now: i64,
    ) -> (r: Result<Option<AppUser>, SupabaseError>)
        ensures
            match r {
                Ok(opt) => match opt {
                    Some(user) => {
                        &&& signed_in matches Ok(tok) && match self.0.new_session_model(
                            tok,
                            *check,
                            now as int,
                        ) {
                            Some(iv) => user.identity@ == iv,
                            None => false,
                        }
                    },
                    None => false,
                },
                Err(e) => match signed_in {
                    Err(e0) => e@ == e0@,
                    Ok(tok) => self.0.new_session_model(tok, *check, now as int) is None,
                },
            },
    {
        self.0.authenticate(signed_in, check, now)
    }

    /// Delegates to the core's cheap identity materialization.
    pub fn get_user(&self, data: &IdentityData) -> (r: Result<Option<AppUser>, SupabaseError>)
        ensures
            match r {
                Ok(opt) => match opt {
                    Some(user) => user.identity@ == data@,
                    None => false,
                },
                Err(_) => false,
            },
    {
        self.0.get_user(data)
    }
}

} // verus!
