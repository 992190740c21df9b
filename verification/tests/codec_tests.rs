//! The serialized identity payload: round trips and corruption handling.

use session_core::user_identity::{AssuranceLevel, IdentityData};

fn sample_identity() -> IdentityData {
    IdentityData {
        auth_token: "eyJ.access.token".to_string(),
        refresh_token: "refresh-abc-123".to_string(),
        expiry_date: 1_700_000_000,
        last_accessed: 1_699_999_000,
        user_id: "user-42".to_string(),
        email: "ada@example.com".to_string(),
        has_mfa: false,
        aal: AssuranceLevel::Basic,
    }
}

fn assert_identities_equal(a: &IdentityData, b: &IdentityData) {
    assert_eq!(a.auth_token, b.auth_token);
    assert_eq!(a.refresh_token, b.refresh_token);
    assert_eq!(a.expiry_date, b.expiry_date);
    assert_eq!(a.last_accessed, b.last_accessed);
    assert_eq!(a.user_id, b.user_id);
    assert_eq!(a.email, b.email);
    assert_eq!(a.has_mfa, b.has_mfa);
    assert_eq!(a.aal, b.aal);
}

#[test]
fn payload_round_trip() {
    let ident = sample_identity();
    let data = ident.into_record_data();
    let back = IdentityData::from_record_data(&data).expect("payload must deserialize");
    assert_identities_equal(&sample_identity(), &back);
}

#[test]
fn payload_round_trip_elevated_and_negative_times() {
    let ident = IdentityData {
        auth_token: String::new(),
        refresh_token: "r".to_string(),
        expiry_date: -1,
        last_accessed: i64::MIN,
        user_id: String::new(),
        email: "x@y".to_string(),
        has_mfa: true,
        aal: AssuranceLevel::Elevated,
    };
    let data = ident.into_record_data();
    let back = IdentityData::from_record_data(&data).expect("payload must deserialize");
    assert_eq!(back.auth_token, "");
    assert_eq!(back.refresh_token, "r");
    assert_eq!(back.expiry_date, -1);
    assert_eq!(back.last_accessed, i64::MIN);
    assert!(back.has_mfa);
    assert_eq!(back.aal, AssuranceLevel::Elevated);
}

#[test]
fn payload_round_trip_extreme_timestamps() {
    let ident = IdentityData {
        expiry_date: i64::MAX,
        last_accessed: 0,
        ..sample_identity()
    };
    let data = ident.into_record_data();
    let back = IdentityData::from_record_data(&data).expect("payload must deserialize");
    assert_eq!(back.expiry_date, i64::MAX);
    assert_eq!(back.last_accessed, 0);
}

#[test]
fn empty_payload_is_corrupt() {
    assert!(IdentityData::from_record_data(&Vec::new()).is_none());
}

#[test]
fn truncated_payload_is_corrupt() {
    let mut data = sample_identity().into_record_data();
    data.pop();
    assert!(IdentityData::from_record_data(&data).is_none());
}

#[test]
fn trailing_garbage_is_corrupt() {
    let mut data = sample_identity().into_record_data();
    data.push('x');
    assert!(IdentityData::from_record_data(&data).is_none());
}

#[test]
fn arbitrary_text_is_corrupt() {
    let data: Vec<char> = "just some cookie text, not a payload".chars().collect();
    assert!(IdentityData::from_record_data(&data).is_none());
}
