//! The library-wide laws of the session subsystem, each proved over the
//! models that the operations' own contracts are stated in: the cache
//! sequence, the durable table sequence, and the `spec_load` pipeline.

use vstd::prelude::*;

use crate::cache::{
    lemma_cache_find_after_delete, lemma_cache_find_after_save, spec_cache_delete,
    spec_cache_find, spec_cache_save,
};
use crate::provider::{AccessToken, ScriptedProvider};
use crate::session_record::SessionRecordView;
use crate::session_store::spec_load;
use crate::table::{
    lemma_table_get_after_delete, lemma_table_get_after_upsert, lemma_table_link_in_place,
    spec_pos_by_sb, spec_table_delete, spec_table_get_by_app, spec_table_link, spec_table_upsert,
    SessionRowView,
};
use crate::user_identity::{
    lemma_identity_codec_roundtrip, spec_decode_identity, spec_encode_identity, spec_is_stale,
    wf_identity_view, IdentityView,
};
use crate::validator::{spec_record_with, spec_refreshed, spec_stamped};

verus! {

/// At most one cached record per identifier.
pub open spec fn cache_keys_unique(c: Seq<SessionRecordView>) -> bool {
    forall|i: int, j: int| 0 <= i < j < c.len() ==> (#[trigger] c[i].id) != (#[trigger] c[j].id)
}

/// At most one durable row per linked application identifier.
pub open spec fn table_app_ids_unique(t: Seq<SessionRowView>) -> bool {
    forall|i: int, j: int|
        0 <= i < j < t.len() && (#[trigger] t[i].app_id) is Some ==> t[i].app_id
            != (#[trigger] t[j].app_id)
}

/// At most one durable row per provider identifier.
pub open spec fn table_sb_ids_unique(t: Seq<SessionRowView>) -> bool {
    forall|i: int, j: int|
        0 <= i < j < t.len() && (#[trigger] t[i].sb_id) is Some ==> t[i].sb_id
            != (#[trigger] t[j].sb_id)
}

/// A cached record with a structurally valid, non-expired token whose
/// `last_accessed` is within the staleness threshold: `load` returns it
/// unchanged, touches neither tier, and makes neither a probe nor a
/// refresh call.
pub proof fn lemma_load_fresh_unchanged(
    c: Seq<SessionRecordView>,
    t: Seq<SessionRowView>,
    cap: int,
    id: Seq<char>,
    now: int,
    script: ScriptedProvider,
    r0: SessionRecordView,
    ident: IdentityView,
)
    requires
        spec_cache_find(c, id) == Some(r0),
        spec_decode_identity(r0.data) == Some(ident),
        script.check is Valid,
        !spec_is_stale(ident.last_accessed, now),
    ensures
        ({
            let m = spec_load(c, t, cap, id, now, script);
            &&& m.result == Some(r0)
            &&& m.cache == c
            &&& m.table == t
            &&& m.counts == (1int, 0int, 0int)
        }),
{
}

/// A cached record with a structurally expired token and a provider that
/// still honours its refresh token: `load` makes exactly one refresh call,
/// and the returned record carries the fresh token pair with
/// `last_accessed` stamped to now, written through both tiers.
pub proof fn lemma_load_expired_refreshes(
    c: Seq<SessionRecordView>,
    t: Seq<SessionRowView>,
    cap: int,
    id: Seq<char>,
    now: int,
    script: ScriptedProvider,
    r0: SessionRecordView,
    ident: IdentityView,
    tok: AccessToken,
)
    requires
        spec_cache_find(c, id) == Some(r0),
        spec_decode_identity(r0.data) == Some(ident),
        script.check is Expired,
        script.refresh == Some(tok),
        wf_identity_view(spec_refreshed(ident, tok, now)),
    ensures
        ({
            let m = spec_load(c, t, cap, id, now, script);
            let fresh_ident = spec_refreshed(ident, tok, now);
            let r1 = spec_record_with(r0, fresh_ident);
            &&& m.counts == (1int, 0int, 1int)
            &&& m.result == Some(r1)
            &&& spec_decode_identity(r1.data) == Some(fresh_ident)
            &&& fresh_ident.auth_token == tok.access_token@
            &&& fresh_ident.refresh_token == tok.refresh_token@
            &&& fresh_ident.last_accessed == now
            &&& m.cache == spec_cache_save(c, cap, r1)
            &&& m.table == spec_table_upsert(t, r1.id, r1.data, r1.expiry_date, now)
        }),
{
    lemma_identity_codec_roundtrip(spec_refreshed(ident, tok, now));
}

/// The same law for a record that only the durable tier holds: one refresh
/// call, fresh tokens, clock stamped, written through.
pub proof fn lemma_load_expired_refreshes_durable(
    c: Seq<SessionRecordView>,
    t: Seq<SessionRowView>,
    cap: int,
    id: Seq<char>,
    now: int,
    script: ScriptedProvider,
    row: SessionRowView,
    data: Seq<char>,
    ident: IdentityView,
    tok: AccessToken,
)
    requires
        spec_cache_find(c, id) is None,
        spec_table_get_by_app(t, id) == Some(row),
        row.data == Some(data),
        spec_decode_identity(data) == Some(ident),
        script.check is Expired,
        script.refresh == Some(tok),
        wf_identity_view(spec_refreshed(ident, tok, now)),
    ensures
        ({
            let m = spec_load(c, t, cap, id, now, script);
            let fresh_ident = spec_refreshed(ident, tok, now);
            &&& m.counts == (1int, 0int, 1int)
            &&& m.result matches Some(rec) && spec_decode_identity(rec.data) == Some(fresh_ident)
            &&& fresh_ident.auth_token == tok.access_token@
            &&& fresh_ident.last_accessed == now
        }),
{
    lemma_identity_codec_roundtrip(spec_refreshed(ident, tok, now));
}

/// A revoked or already-rotated refresh token: whatever either tier held
/// under `id`, `load` reports no session and both the cached copy and the
/// durable row are gone.
pub proof fn lemma_load_revoked_refresh_clears(
    c: Seq<SessionRecordView>,
    t: Seq<SessionRowView>,
    cap: int,
    id: Seq<char>,
    now: int,
    script: ScriptedProvider,
)
    requires
        cache_keys_unique(c),
        table_app_ids_unique(t),
        script.check is Expired,
        script.refresh is None,
    ensures
        ({
            let m = spec_load(c, t, cap, id, now, script);
            &&& m.result is None
            &&& spec_cache_find(m.cache, id) is None
            &&& spec_table_get_by_app(m.table, id) is None
        }),
{
    lemma_cache_find_after_delete(c, id);
    lemma_table_get_after_delete(t, id);
}

/// A `create` whose record's token carries a provider session identifier
/// matching a pre-existing durable row updates that row in place — the
/// table does not grow, so no duplicate row ever appears; only when no
/// such row exists does the one fallback insert happen.
pub proof fn lemma_create_links_in_place(
    t: Seq<SessionRowView>,
    sb: Seq<char>,
    id: Seq<char>,
    data: Seq<char>,
    expiry: int,
)
    requires
        table_sb_ids_unique(t),
    ensures
        ({
            let t1 = spec_table_link(t, sb, id, data, expiry);
            &&& spec_pos_by_sb(t, sb) is Some ==> t1.len() == t.len()
            &&& spec_pos_by_sb(t, sb) is None ==> t1.len() == t.len() + 1
            &&& crate::table::spec_table_get_by_sb(t1, sb) matches Some(row) && row.app_id == Some(
                id,
            ) && row.data == Some(data)
        }),
{
    lemma_table_link_in_place(t, sb, id, data, expiry);
}

/// After an elevation wrote the durable row, a `load` that cannot use the
/// cache — the cached copy was evicted or never written — still returns
/// the elevated identity: the durable store is authoritative.
pub proof fn lemma_elevation_visible_after_load(
    c: Seq<SessionRecordView>,
    t: Seq<SessionRowView>,
    cap: int,
    id: Seq<char>,
    elev_now: int,
    load_now: int,
    script: ScriptedProvider,
    elevated: IdentityView,
)
    requires
        table_app_ids_unique(t),
        spec_cache_find(c, id) is None,
        elevated.has_mfa == true,
        elevated.aal is Elevated,
        wf_identity_view(elevated),
        script.check is Valid,
        !spec_is_stale(elevated.last_accessed, load_now),
    ensures
        ({
            let data = spec_encode_identity(elevated);
            let t1 = spec_table_upsert(t, id, data, elevated.expiry_date, elev_now);
            let m = spec_load(c, t1, cap, id, load_now, script);
            &&& m.result matches Some(rec) && spec_decode_identity(rec.data) == Some(elevated)
            &&& match m.result {
                Some(rec) => spec_decode_identity(rec.data) matches Some(iv) && iv.aal is Elevated
                    && iv.has_mfa == true,
                None => false,
            }
        }),
{
    let data = spec_encode_identity(elevated);
    let t1 = spec_table_upsert(t, id, data, elevated.expiry_date, elev_now);
    lemma_table_get_after_upsert(t, id, data, elevated.expiry_date, elev_now);
    lemma_identity_codec_roundtrip(elevated);
    let rec = SessionRecordView { id: id, data: data, expiry_date: elevated.expiry_date };
    assert(spec_load(c, t1, cap, id, load_now, script).result == Some(rec));
}

/// `save(record)` followed by `load` of its identifier, with a valid,
/// fresh token: the very record comes back — through the cache.
pub proof fn lemma_save_then_load_cache_path(
    c: Seq<SessionRecordView>,
    t: Seq<SessionRowView>,
    cap: int,
    now: int,
    load_now: int,
    script: ScriptedProvider,
    rec: SessionRecordView,
    ident: IdentityView,
)
    requires
        cache_keys_unique(c),
        1 <= cap,
        spec_decode_identity(rec.data) == Some(ident),
        script.check is Valid,
        !spec_is_stale(ident.last_accessed, load_now),
    ensures
        ({
            let c1 = spec_cache_save(c, cap, rec);
            let t1 = spec_table_upsert(t, rec.id, rec.data, rec.expiry_date, now);
            let m = spec_load(c1, t1, cap, rec.id, load_now, script);
            &&& m.result == Some(rec)
            &&& m.cache == c1
            &&& m.table == t1
        }),
{
    lemma_cache_find_after_save(c, cap, rec);
}

/// `save(record)` followed by a forced eviction of the cached copy and a
/// `load`, with a valid, fresh token: an equal record comes back — through
/// the durable tier — and the cache is repopulated with it.
pub proof fn lemma_save_then_load_durable_path(
    c: Seq<SessionRecordView>,
    t: Seq<SessionRowView>,
    cap: int,
    now: int,
    load_now: int,
    script: ScriptedProvider,
    rec: SessionRecordView,
    ident: IdentityView,
)
    requires
        cache_keys_unique(c),
        table_app_ids_unique(t),
        1 <= cap,
        c.len() <= cap,
        spec_decode_identity(rec.data) == Some(ident),
        script.check is Valid,
        !spec_is_stale(ident.last_accessed, load_now),
    ensures
        ({
            let c1 = spec_cache_save(c, cap, rec);
            let t1 = spec_table_upsert(t, rec.id, rec.data, rec.expiry_date, now);
            let c2 = spec_cache_delete(c1, rec.id);
            let m = spec_load(c2, t1, cap, rec.id, load_now, script);
            &&& m.result == Some(rec)
            &&& m.table == t1
            &&& spec_cache_find(m.cache, rec.id) == Some(rec)
        }),
{
    let c1 = spec_cache_save(c, cap, rec);
    let t1 = spec_table_upsert(t, rec.id, rec.data, rec.expiry_date, now);
    let c2 = spec_cache_delete(c1, rec.id);
    crate::cache::lemma_wf_after_save(c, cap, rec);
    lemma_cache_find_after_delete(c1, rec.id);
    lemma_table_get_after_upsert(t, rec.id, rec.data, rec.expiry_date, now);
    let rebuilt = SessionRecordView { id: rec.id, data: rec.data, expiry_date: rec.expiry_date };
    assert(rebuilt == rec);
    crate::cache::lemma_wf_after_delete(c1, rec.id);
    lemma_cache_find_after_save(c2, cap, rec);
}

/// A stale record whose account still exists: `load` makes exactly one
/// existence probe and no refresh, stamps `last_accessed` to now, leaves
/// both tokens unchanged, and writes the stamped record through.
pub proof fn lemma_load_stale_probe_stamps(
    c: Seq<SessionRecordView>,
    t: Seq<SessionRowView>,
    cap: int,
    id: Seq<char>,
    now: int,
    script: ScriptedProvider,
    r0: SessionRecordView,
    ident: IdentityView,
)
    requires
        spec_cache_find(c, id) == Some(r0),
        spec_decode_identity(r0.data) == Some(ident),
        script.check is Valid,
        spec_is_stale(ident.last_accessed, now),
        script.probe_ok,
        wf_identity_view(spec_stamped(ident, now)),
    ensures
        ({
            let m = spec_load(c, t, cap, id, now, script);
            let stamped = spec_stamped(ident, now);
            let r1 = spec_record_with(r0, stamped);
            &&& m.counts == (1int, 1int, 0int)
            &&& m.result == Some(r1)
            &&& spec_decode_identity(r1.data) == Some(stamped)
            &&& stamped.auth_token == ident.auth_token
            &&& stamped.refresh_token == ident.refresh_token
            &&& stamped.last_accessed == now
            &&& m.cache == spec_cache_save(c, cap, r1)
            &&& m.table == spec_table_upsert(t, r1.id, r1.data, r1.expiry_date, now)
        }),
{
    lemma_identity_codec_roundtrip(spec_stamped(ident, now));
}

} // verus!
