use komodo_logic::auth::{
    api_key_expired, auth_api_key_get_user_id, check_enabled, verify_api_secret, ApiKeyRecord,
    API_KEY_CLOCK_SKEW_TOLERANCE_MS, BCRYPT_MAX_CONCURRENT, BCRYPT_MAX_QUEUED,
};

fn hash_of(secret: &str) -> String {
    bcrypt::hash_with_salt(secret, 4, [7u8; 16]).unwrap().to_string()
}

#[test]
fn invalid_bcrypt_hash_maps_to_invalid_user_credentials() {
    let error = verify_api_secret("secret", "not-a-bcrypt-hash").unwrap_err();
    assert_eq!(error.message(), "Invalid user credentials");
}

#[test]
fn bcrypt_secret_is_checked_against_its_hash() {
    let hash = hash_of("secret");
    assert_eq!(verify_api_secret("secret", &hash).unwrap(), true);
    assert_eq!(verify_api_secret("other", &hash).unwrap(), false);
}

#[test]
fn api_key_expiry_allows_five_minutes_of_skew() {
    assert_eq!(API_KEY_CLOCK_SKEW_TOLERANCE_MS, 300_000);
    assert!(!api_key_expired(0, 10_000_000));
    assert!(!api_key_expired(9_700_000, 10_000_000));
    assert!(api_key_expired(9_699_999, 10_000_000));
    assert!(!api_key_expired(i64::MIN, i64::MIN));
    assert_eq!(BCRYPT_MAX_CONCURRENT, 8);
    assert_eq!(BCRYPT_MAX_QUEUED, 64);
}

#[test]
fn api_keys_authenticate_their_owner_only() {
    let now = 1_000_000;
    let record = |expires: i64| ApiKeyRecord { user_id: "user-1".into(), secret_hash: hash_of("s3cret"), expires };
    assert_eq!(auth_api_key_get_user_id(Some(record(0)), "s3cret", now).unwrap(), "user-1");
    let invalid = |r: Result<String, komodo_logic::report::ErrorChain>| {
        assert_eq!(r.unwrap_err().message(), "Invalid user credentials");
    };
    invalid(auth_api_key_get_user_id(None, "s3cret", now));
    invalid(auth_api_key_get_user_id(Some(record(0)), "wrong", now));
    invalid(auth_api_key_get_user_id(Some(record(1)), "s3cret", now));
    assert!(auth_api_key_get_user_id(Some(record(now - 1)), "s3cret", now).is_ok());
}

#[test]
fn disabled_users_are_refused() {
    assert!(check_enabled(true).is_ok());
    assert_eq!(check_enabled(false).unwrap_err().message(), "Invalid user credentials");
}
