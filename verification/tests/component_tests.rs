//! The smaller pieces: cache bounds and eviction, the gateway adapters,
//! expiry parsing, staleness arithmetic, and the dark-mode cookie check.

use session_core::auth::{filter_verified_factors, MFAFactorStatus, ProviderFactor};
use session_core::cache::SessionCache;
use session_core::error::{ErrorKind, PostgrestError, SupabaseError};
use session_core::prefs::PrefersDark;
use session_core::provider::{AccessToken, Claims, TokenCheck};
use session_core::session_store::SupabaseBackend;
use session_core::user_identity::{AssuranceLevel, IdentityData};

const T0: i64 = 1_700_000_000;

fn identity(tag: &str) -> IdentityData {
    IdentityData {
        auth_token: format!("access-{tag}"),
        refresh_token: format!("refresh-{tag}"),
        expiry_date: T0,
        last_accessed: T0,
        user_id: "user-1".to_string(),
        email: "u@example.com".to_string(),
        has_mfa: false,
        aal: AssuranceLevel::Basic,
    }
}

#[test]
fn cache_is_bounded_and_evicts_the_oldest() {
    let mut cache = SessionCache::new(2);
    cache.save(&identity("a").into_session_record(&"A".to_string()));
    cache.save(&identity("b").into_session_record(&"B".to_string()));
    cache.save(&identity("c").into_session_record(&"C".to_string()));
    assert!(cache.load(&"A".to_string()).is_none(), "oldest entry must be evicted");
    assert!(cache.load(&"B".to_string()).is_some());
    assert!(cache.load(&"C".to_string()).is_some());
}

#[test]
fn cache_save_replaces_in_place() {
    let mut cache = SessionCache::new(2);
    cache.save(&identity("a").into_session_record(&"A".to_string()));
    cache.save(&identity("a2").into_session_record(&"A".to_string()));
    let got = cache.load(&"A".to_string()).expect("entry must still be there");
    let ident = IdentityData::from_record_data(&got.data).expect("payload must deserialize");
    assert_eq!(ident.auth_token, "access-a2");
    cache.delete(&"A".to_string());
    assert!(cache.load(&"A".to_string()).is_none());
}

#[test]
fn parse_expiry_date_reads_iso_8601() {
    let parsed =
        IdentityData::parse_expiry_date(&Some("2023-01-01T00:00:00Z".to_string()), 0);
    assert_eq!(parsed, 1_672_531_200);
}

#[test]
fn parse_expiry_date_honours_offsets() {
    let parsed =
        IdentityData::parse_expiry_date(&Some("2023-01-01T01:00:00+01:00".to_string()), 0);
    assert_eq!(parsed, 1_672_531_200);
}

#[test]
fn parse_expiry_date_defaults_one_day_from_now() {
    assert_eq!(IdentityData::parse_expiry_date(&None, T0), T0 + 86_400);
    assert_eq!(
        IdentityData::parse_expiry_date(&Some("not a date".to_string()), T0),
        T0 + 86_400
    );
}

#[test]
fn staleness_threshold_is_five_minutes() {
    let ident = IdentityData { last_accessed: T0, ..identity("a") };
    assert!(!ident.should_refetch_user(T0 + 300));
    assert!(ident.should_refetch_user(T0 + 301));
    // Saturates instead of overflowing near the clock's end.
    let late = IdentityData { last_accessed: i64::MAX - 10, ..identity("a") };
    assert!(!late.should_refetch_user(i64::MAX));
}

#[test]
fn gateway_builds_identity_from_grant_and_claims() {
    let mut b = SupabaseBackend::new(SessionCache::new(4));
    b.record_provider_session(&"sb-9".to_string(), Some(T0 + 3600));
    let auth = b.as_auth_backend();
    let grant = AccessToken {
        access_token: "acc".to_string(),
        refresh_token: "ref".to_string(),
        user_id: "user-9".to_string(),
        email: "nine@example.com".to_string(),
    };
    let check = TokenCheck::Valid(Claims {
        session_id: "sb-9".to_string(),
        aal: AssuranceLevel::Basic,
    });
    let user = auth
        .authenticate(Ok(grant), &check, T0)
        .expect("sign-in must succeed")
        .expect("a user must come back");
    assert_eq!(user.identity.auth_token, "acc");
    assert_eq!(user.identity.refresh_token, "ref");
    assert_eq!(user.identity.user_id, "user-9");
    assert_eq!(user.identity.email, "nine@example.com");
    assert_eq!(user.identity.expiry_date, T0 + 3600);
    assert_eq!(user.identity.last_accessed, T0);
    assert!(!user.identity.has_mfa);
    assert_eq!(user.session_auth_hash(), "ref".to_string());
    let again = auth
        .get_user(&user.identity)
        .expect("get_user cannot fail")
        .expect("a user must come back");
    assert_eq!(again.identity.auth_token, "acc");
    assert_eq!(user.id().user_id, "user-9");
}

#[test]
fn gateway_passes_provider_failures_through() {
    let b = SupabaseBackend::new(SessionCache::new(4));
    let auth = b.as_auth_backend();
    let failure = SupabaseError {
        http_status: 400,
        kind: ErrorKind::Postgrest(PostgrestError {
            message: "bad".to_string(),
            code: "x".to_string(),
        }),
    };
    let err = auth
        .authenticate(Err(failure), &TokenCheck::Invalid, T0)
        .expect_err("the provider failure must pass through");
    assert_eq!(err.http_status, 400);
}

#[test]
fn store_adapter_delegates_to_the_core() {
    let b = SupabaseBackend::new(SessionCache::new(4));
    let mut store = b.as_session_store();
    let rec = identity("w").into_session_record(&"W".to_string());
    store.save(&rec, T0);
    let script = session_core::provider::ScriptedProvider {
        check: TokenCheck::Valid(Claims {
            session_id: "sb".to_string(),
            aal: AssuranceLevel::Basic,
        }),
        probe_ok: true,
        refresh: None,
    };
    let (out, _counts) = store.load(&"W".to_string(), T0, &script);
    assert!(out.is_some());
    store.delete(&"W".to_string());
    let (out2, _counts2) = store.load(&"W".to_string(), T0, &script);
    assert!(out2.is_none());
}

#[test]
fn describe_renders_every_field() {
    let ident = IdentityData {
        auth_token: "A".to_string(),
        refresh_token: "R".to_string(),
        expiry_date: -5,
        last_accessed: 42,
        user_id: "U".to_string(),
        email: "E@x".to_string(),
        has_mfa: false,
        aal: AssuranceLevel::Basic,
    };
    assert_eq!(
        ident.describe(),
        "IdentityData { auth_token: 'A', refresh_token: 'R', expiry_date: '-5', \
         last_accessed: '42', user_id: 'U', email: 'E@x' }"
    );
}

#[test]
fn factor_listing_splits_verified_from_leftovers() {
    let listing = vec![
        ProviderFactor {
            id: "f1".to_string(),
            friendly_name: Some("phone".to_string()),
            status: MFAFactorStatus::Verified,
        },
        ProviderFactor {
            id: "f2".to_string(),
            friendly_name: None,
            status: MFAFactorStatus::Unverified,
        },
        ProviderFactor {
            id: "f3".to_string(),
            friendly_name: Some("laptop".to_string()),
            status: MFAFactorStatus::Verified,
        },
    ];
    let (kept, dropped) = filter_verified_factors(&listing);
    assert_eq!(kept.len(), 2);
    assert_eq!(kept[0].id, "f1");
    assert_eq!(kept[0].name, "phone");
    assert_eq!(kept[1].id, "f3");
    assert_eq!(kept[1].name, "laptop");
    assert_eq!(dropped, vec!["f2".to_string()]);
}

#[test]
fn query_strings_split_into_ordered_pairs() {
    let pairs = session_core::query::parse_query_string(Some("a=1&b=2&flag"));
    assert_eq!(
        pairs,
        vec![
            ("a".to_string(), "1".to_string()),
            ("b".to_string(), "2".to_string()),
            ("flag".to_string(), String::new()),
        ]
    );
    assert!(session_core::query::parse_query_string(None).is_empty());
    assert_eq!(
        session_core::query::parse_query_string(Some("")),
        vec![(String::new(), String::new())]
    );
    // Only the first `=` splits a segment.
    assert_eq!(
        session_core::query::parse_query_string(Some("k=v=w")),
        vec![("k".to_string(), "v=w".to_string())]
    );
}

#[test]
fn dark_mode_cookie_is_detected() {
    assert!(PrefersDark::check("theme=x; dark_mode=true; other=1"));
    assert!(PrefersDark::check("dark_mode"));
    assert!(!PrefersDark::check(""));
    assert!(!PrefersDark::check("light_mode=true; dark=partial"));
}
