//! Authenticating API keys: expiry with clock-skew tolerance, the bcrypt check
//! of the secret, and the enabled check on the user.
use vstd::prelude::*;

use crate::report::ErrorChain;
use crate::text::{chars_of, string_of};

verus! {

/// Clock skew tolerated on API key expiry, in milliseconds (five minutes).
pub const API_KEY_CLOCK_SKEW_TOLERANCE_MS: i64 = 5 * 60 * 1000;

/// The most bcrypt checks that run at once.
pub const BCRYPT_MAX_CONCURRENT: usize = 8;

/// The most bcrypt checks that may wait for a turn.
pub const BCRYPT_MAX_QUEUED: usize = 64;

/// How long a bcrypt check waits for a place in the queue, in milliseconds.
pub const BCRYPT_ADMISSION_TIMEOUT_MS: u64 = 2000;

/// Every authentication failure is answered alike, so that callers learn
/// nothing about which part was wrong.
pub open spec fn invalid_credentials() -> Seq<char> {
    "Invalid user credentials"@
}

pub fn invalid_credentials_error() -> (e: ErrorChain)
    ensures
        e.view_chain() == seq![invalid_credentials()],
{
    ErrorChain::single(string_of(&chars_of("Invalid user credentials")))
}

/// `now - tolerance`, saturating at the smallest `i64`.
pub open spec fn expiry_cutoff(now: i64) -> int {
    if now - API_KEY_CLOCK_SKEW_TOLERANCE_MS < i64::MIN {
        i64::MIN as int
    } else {
        now - API_KEY_CLOCK_SKEW_TOLERANCE_MS
    }
}

/// A key expires at `expires` (milliseconds; 0 means never) and is refused
/// once that lies before `now` minus the tolerance.
pub open spec fn is_expired(expires: i64, now: i64) -> bool {
    expires != 0 && expires < expiry_cutoff(now)
}

pub fn api_key_expired(expires: i64, now: i64) -> (r: bool)
    ensures
        r == is_expired(expires, now),
{
    let cutoff: i64 = if now < i64::MIN + API_KEY_CLOCK_SKEW_TOLERANCE_MS {
        i64::MIN
    } else {
        now - API_KEY_CLOCK_SKEW_TOLERANCE_MS
    };
    expires != 0 && expires < cutoff
}

/// What `bcrypt::verify(password, hash)` returns: whether the password matches
/// the hash, or none when the hash cannot be read.
pub uninterp spec fn bcrypt_verify(password: Seq<char>, hash: Seq<char>) -> Option<bool>;

/// Calls `bcrypt::verify`. Its result depends on the password and the hash
/// alone (the salt and cost are read from the hash); an error is turned into
/// `None`. The source rejects every hash that is not exactly 60 ASCII bytes,
/// so a hash of another length in characters gives `None`.
#[verifier::external_body]
fn bcrypt_verify_call(password: &str, hash: &str) -> (r: Option<bool>)
    ensures
        r == bcrypt_verify(password@, hash@),
        hash@.len() != 60 ==> r is None,
{
    match bcrypt::verify(password, hash) {
        Ok(matches) => Some(matches),
        Err(_) => None,
    }
}

/// Checks an API secret against its stored bcrypt hash; a hash that cannot be
/// read is reported as invalid credentials.
pub fn verify_api_secret(secret: &str, hashed_secret: &str) -> (r: Result<bool, ErrorChain>)
    ensures
        match bcrypt_verify(secret@, hashed_secret@) {
            Some(b) => r == Ok::<bool, ErrorChain>(b),
            None => r matches Err(e) && e.view_chain() == seq![invalid_credentials()],
        },
        hashed_secret@.len() != 60 ==> (r matches Err(e) && e.view_chain() == seq![invalid_credentials()]),
{
    match bcrypt_verify_call(secret, hashed_secret) {
        Some(matches) => Ok(matches),
        None => Err(invalid_credentials_error()),
    }
}

/// A stored API key: its owner, the bcrypt hash of its secret and its expiry.
pub struct ApiKeyRecord {
    pub user_id: String,
    pub secret_hash: String,
    pub expires: i64,
}

/// The user an API key authenticates, given the stored key found for it (if
/// any) and the current time: unknown and expired keys, secrets that do not
/// match, and unreadable hashes are all refused alike.
pub fn auth_api_key_get_user_id(record: Option<ApiKeyRecord>, secret: &str, now: i64) -> (r: Result<String, ErrorChain>)
    ensures
        match record {
            None => r matches Err(e) && e.view_chain() == seq![invalid_credentials()],
            Some(key) => if is_expired(key.expires, now) {
                r matches Err(e) && e.view_chain() == seq![invalid_credentials()]
            } else {
                match bcrypt_verify(secret@, key.secret_hash@) {
                    Some(true) => r matches Ok(id) && id@ == key.user_id@,
                    _ => r matches Err(e) && e.view_chain() == seq![invalid_credentials()],
                }
            },
        },
{
    let key = match record {
        None => return Err(invalid_credentials_error()),
        Some(key) => key,
    };
    if api_key_expired(key.expires, now) {
        return Err(invalid_credentials_error());
    }
    match verify_api_secret(secret, key.secret_hash.as_str()) {
        Ok(true) => Ok(key.user_id),
        Ok(false) => Err(invalid_credentials_error()),
        Err(e) => Err(e),
    }
}

/// Only enabled users may authenticate.
pub fn check_enabled(enabled: bool) -> (r: Result<(), ErrorChain>)
    ensures
        enabled <==> r is Ok,
        r matches Err(e) ==> e.view_chain() == seq![invalid_credentials()],
{
    if enabled {
        Ok(())
    } else {
        Err(invalid_credentials_error())
    }
}

/// Keys that never expire are never refused as expired, and a key is still
/// accepted for the tolerance window after it expired.
pub proof fn law_expiry_tolerance(expires: i64, now: i64)
    ensures
        expires == 0 ==> !is_expired(expires, now),
        now - API_KEY_CLOCK_SKEW_TOLERANCE_MS <= expires ==> !is_expired(expires, now),
        expires != 0 && expires < now - API_KEY_CLOCK_SKEW_TOLERANCE_MS && now - API_KEY_CLOCK_SKEW_TOLERANCE_MS >= i64::MIN
            ==> is_expired(expires, now),
{
}

} // verus!
