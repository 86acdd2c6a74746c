//! The expiry policy of the cached access context.

use chatex_sdk_rust::context::{AccessContext, BaseContext, TIME_EXPIRATION_TOLERANCE};
use chatex_sdk_rust::models::AccessToken;

fn create_access_context(expires_at: i64) -> AccessContext {
    let base_context = BaseContext::new("http://localhost:8000".to_owned());
    AccessContext::new(
        base_context,
        AccessToken {
            access_token: String::new(),
            expires_at,
        },
    )
}

#[test]
fn test_expired() {
    let now = chrono::Utc::now().timestamp();
    let access_context = create_access_context(now);
    assert!(access_context.expired(now), "AccessContext must be expired!");
}

#[test]
fn test_not_expired() {
    let now = chrono::Utc::now().timestamp();
    let valid_time = now
        .checked_add(TIME_EXPIRATION_TOLERANCE + 1)
        .expect("Failed to add TIME_EXPIRATION_TOLERANCE");
    let access_context = create_access_context(valid_time);
    assert!(
        access_context.not_expired(now),
        "AccessContext must not be expired!"
    );
}

#[test]
fn expiry_boundary() {
    let now: i64 = 1_000_000;
    // Exactly now + tolerance is already expired.
    let at_boundary = create_access_context(now + TIME_EXPIRATION_TOLERANCE);
    assert!(at_boundary.expired(now));
    // One second past the boundary is fresh.
    let past_boundary = create_access_context(now + TIME_EXPIRATION_TOLERANCE + 1);
    assert!(!past_boundary.expired(now));
    // Anything at or below the boundary is expired.
    let below = create_access_context(now + TIME_EXPIRATION_TOLERANCE - 30);
    assert!(below.expired(now));
    let long_gone = create_access_context(now - 10_000);
    assert!(long_gone.expired(now));
}

#[test]
fn expiry_extremes() {
    // The comparison is exact even at the ends of the range.
    let never = create_access_context(i64::MAX);
    assert!(!never.expired(0));
    let always = create_access_context(i64::MIN);
    assert!(always.expired(0));
    let late_clock = create_access_context(0);
    assert!(late_clock.expired(i64::MAX - TIME_EXPIRATION_TOLERANCE));
}
