//! End-to-end flows through the two-tier store: freshness, staleness,
//! refresh, invalidation, correlation on create, elevation, round trips.

use session_core::cache::SessionCache;
use session_core::provider::{AccessToken, Claims, ScriptedProvider, TokenCheck};
use session_core::session_record::SessionRecord;
use session_core::session_store::SupabaseBackend;
use session_core::user_identity::{AssuranceLevel, IdentityData};

const T0: i64 = 1_700_000_000;

fn backend() -> SupabaseBackend {
    SupabaseBackend::new(SessionCache::new(8))
}

fn identity(last_accessed: i64) -> IdentityData {
    IdentityData {
        auth_token: "access-old".to_string(),
        refresh_token: "refresh-old".to_string(),
        expiry_date: T0,
        last_accessed,
        user_id: "user-1".to_string(),
        email: "u@example.com".to_string(),
        has_mfa: false,
        aal: AssuranceLevel::Basic,
    }
}

fn record(id: &str, last_accessed: i64) -> SessionRecord {
    identity(last_accessed).into_session_record(&id.to_string())
}

fn valid_check() -> TokenCheck {
    TokenCheck::Valid(Claims { session_id: "sb-1".to_string(), aal: AssuranceLevel::Basic })
}

fn fresh_script() -> ScriptedProvider {
    ScriptedProvider { check: valid_check(), probe_ok: true, refresh: None }
}

fn fresh_grant() -> AccessToken {
    AccessToken {
        access_token: "access-new".to_string(),
        refresh_token: "refresh-new".to_string(),
        user_id: "user-1".to_string(),
        email: "u@example.com".to_string(),
    }
}

fn decode(rec: &SessionRecord) -> IdentityData {
    IdentityData::from_record_data(&rec.data).expect("record payload must deserialize")
}

#[test]
fn fresh_record_loads_unchanged_without_provider_traffic() {
    let mut b = backend();
    let id = "S1".to_string();
    let rec = record("S1", T0 - 60);
    b.save(&rec, T0 - 60);
    let (out, counts) = b.load(&id, T0, &fresh_script());
    let got = out.expect("fresh session must load");
    assert_eq!(got.id, rec.id);
    assert_eq!(got.data, rec.data);
    assert_eq!(got.expiry_date, rec.expiry_date);
    assert_eq!(counts.checks, 1);
    assert_eq!(counts.probes, 0);
    assert_eq!(counts.refreshes, 0);
}

#[test]
fn expired_record_refreshes_exactly_once() {
    let mut b = backend();
    let id = "S2".to_string();
    let rec = record("S2", T0 - 60);
    b.save(&rec, T0 - 60);
    let script = ScriptedProvider {
        check: TokenCheck::Expired,
        probe_ok: false,
        refresh: Some(fresh_grant()),
    };
    let now = T0 + 10;
    let (out, counts) = b.load(&id, now, &script);
    let got = out.expect("refreshed session must load");
    assert_eq!(counts.refreshes, 1);
    let ident = decode(&got);
    assert_eq!(ident.auth_token, "access-new");
    assert_eq!(ident.refresh_token, "refresh-new");
    assert_eq!(ident.last_accessed, now);
}

#[test]
fn revoked_refresh_clears_both_tiers() {
    let mut b = backend();
    let id = "S3".to_string();
    let rec = record("S3", T0 - 60);
    b.save(&rec, T0 - 60);
    let script = ScriptedProvider { check: TokenCheck::Expired, probe_ok: false, refresh: None };
    let (out, _counts) = b.load(&id, T0 + 10, &script);
    assert!(out.is_none());
    assert!(b.cached_record(&id).is_none());
    assert!(b.durable_row(&id).is_none());
}

#[test]
fn create_updates_correlated_row_in_place() {
    let mut b = backend();
    b.record_provider_session(&"sb-1".to_string(), Some(T0 + 3600));
    assert_eq!(b.session_row_count(), 1);
    let rec = record("S4", T0);
    b.create(&rec, &valid_check()).expect("create must succeed");
    // The pre-inserted row was linked, not duplicated.
    assert_eq!(b.session_row_count(), 1);
    let row = b.durable_row(&"S4".to_string()).expect("row must now be linked");
    assert_eq!(row.sb_id, Some("sb-1".to_string()));
    assert_eq!(row.app_id, Some("S4".to_string()));
    assert_eq!(row.data, Some(rec.data.clone()));
}

#[test]
fn create_falls_back_to_insert_without_correlated_row() {
    let mut b = backend();
    let rec = record("S5", T0);
    b.create(&rec, &valid_check()).expect("create must succeed");
    assert_eq!(b.session_row_count(), 1);
    assert!(b.durable_row(&"S5".to_string()).is_some());
}

#[test]
fn elevation_reaches_durable_store_and_survives_cache_loss() {
    let mut b = backend();
    let id = "S6".to_string();
    let rec = record("S6", T0 - 60);
    b.save(&rec, T0 - 60);
    let elevated_check = TokenCheck::Valid(Claims {
        session_id: "sb-1".to_string(),
        aal: AssuranceLevel::Elevated,
    });
    let grant = AccessToken {
        access_token: "access-aal2".to_string(),
        refresh_token: "refresh-aal2".to_string(),
        user_id: "user-1".to_string(),
        email: "u@example.com".to_string(),
    };
    b.update_assurance_level(&id, identity(T0 - 60), &grant, &elevated_check, T0)
        .expect("elevation must succeed");
    // Even if the cached copy is lost, the durable row is authoritative.
    b.evict_cached(&id);
    let (out, _counts) = b.load(&id, T0 + 10, &fresh_script());
    let got = out.expect("elevated session must load");
    let ident = decode(&got);
    assert_eq!(ident.aal, AssuranceLevel::Elevated);
    assert!(ident.has_mfa);
    assert_eq!(ident.auth_token, "access-aal2");
}

#[test]
fn elevation_with_invalid_claims_is_refused_not_ignored() {
    let mut b = backend();
    let id = "S6b".to_string();
    let rec = record("S6b", T0 - 60);
    b.save(&rec, T0 - 60);
    let err = b
        .update_assurance_level(&id, identity(T0 - 60), &fresh_grant(), &TokenCheck::Invalid, T0)
        .expect_err("invalid claims must be refused");
    assert_eq!(err.http_status, 403);
    // The session is unchanged.
    let (out, _counts) = b.load(&id, T0, &fresh_script());
    let ident = decode(&out.expect("session must still load"));
    assert_eq!(ident.aal, AssuranceLevel::Basic);
    assert!(!ident.has_mfa);
}

#[test]
fn save_load_round_trip_via_cache_then_durable() {
    let mut b = backend();
    let id = "S7".to_string();
    let rec = record("S7", T0 - 60);
    b.save(&rec, T0 - 60);
    // Cache path.
    let (out, _): (Option<SessionRecord>, _) = b.load(&id, T0, &fresh_script());
    let got = out.expect("must load via cache");
    assert_eq!(got.id, rec.id);
    assert_eq!(got.data, rec.data);
    assert_eq!(got.expiry_date, rec.expiry_date);
    // Durable path, after a forced eviction.
    b.evict_cached(&id);
    assert!(b.cached_record(&id).is_none());
    let (out2, _) = b.load(&id, T0, &fresh_script());
    let got2 = out2.expect("must load via the durable row");
    assert_eq!(got2.id, rec.id);
    assert_eq!(got2.data, rec.data);
    assert_eq!(got2.expiry_date, rec.expiry_date);
    // And the cache was repopulated.
    assert!(b.cached_record(&id).is_some());
}

#[test]
fn stale_record_probes_once_and_stamps_clock() {
    // SessionId "S1", token valid until T0, last_accessed = T0 - 10min,
    // staleness threshold 5min, load at T0 - 1min.
    let mut b = backend();
    let id = "S1".to_string();
    let rec = record("S1", T0 - 600);
    b.save(&rec, T0 - 600);
    let now = T0 - 60;
    let (out, counts) = b.load(&id, now, &fresh_script());
    let got = out.expect("stale-but-valid session must load");
    assert_eq!(counts.checks, 1);
    assert_eq!(counts.probes, 1);
    assert_eq!(counts.refreshes, 0);
    let ident = decode(&got);
    assert_eq!(ident.last_accessed, now);
    assert_eq!(ident.auth_token, "access-old");
    assert_eq!(ident.refresh_token, "refresh-old");
}

#[test]
fn stale_record_with_vanished_account_falls_back_to_refresh() {
    let mut b = backend();
    let id = "S8".to_string();
    let rec = record("S8", T0 - 600);
    b.save(&rec, T0 - 600);
    let script = ScriptedProvider {
        check: valid_check(),
        probe_ok: false,
        refresh: Some(fresh_grant()),
    };
    let (out, counts) = b.load(&id, T0, &script);
    let got = out.expect("recovered session must load");
    assert_eq!(counts.probes, 1);
    assert_eq!(counts.refreshes, 1);
    assert_eq!(decode(&got).auth_token, "access-new");
}

#[test]
fn load_of_absent_session_is_none_not_error() {
    let mut b = backend();
    let (out, counts) = b.load(&"missing".to_string(), T0, &fresh_script());
    assert!(out.is_none());
    assert_eq!(counts.checks, 0);
}

#[test]
fn corrupt_durable_payload_fails_closed() {
    let mut b = backend();
    let id = "S9".to_string();
    let mut rec = record("S9", T0 - 60);
    rec.data = "garbage".chars().collect();
    b.save(&rec, T0 - 60);
    b.evict_cached(&id);
    let (out, _counts) = b.load(&id, T0, &fresh_script());
    assert!(out.is_none());
    assert!(b.durable_row(&id).is_none());
}

#[test]
fn delete_clears_both_tiers() {
    let mut b = backend();
    let id = "S10".to_string();
    let rec = record("S10", T0 - 60);
    b.save(&rec, T0 - 60);
    b.delete(&id);
    assert!(b.cached_record(&id).is_none());
    assert!(b.durable_row(&id).is_none());
}
