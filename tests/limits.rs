use shortroute::limiter::{admit_request, ClientLimiter, CREATIONS_PER_MINUTE};
use shortroute::route::CreateError;
use shortroute::validate::ValidationError;

const NOW: i64 = 1_700_000_000;

#[test]
fn quota_is_one_per_minute() {
    assert_eq!(CREATIONS_PER_MINUTE, 1);
}

#[test]
fn second_request_within_the_minute_is_rate_limited() {
    let limiter = ClientLimiter::new();
    assert_eq!(admit_request(&limiter, 1, "https://example.com", NOW + 60, NOW), Ok(()));
    assert_eq!(
        admit_request(&limiter, 1, "https://example.com", NOW + 60, NOW),
        Err(CreateError::RateLimited)
    );
}

#[test]
fn clients_have_separate_quotas() {
    let limiter = ClientLimiter::new();
    assert_eq!(admit_request(&limiter, 7, "https://example.com", NOW + 60, NOW), Ok(()));
    assert_eq!(admit_request(&limiter, 8, "https://example.com", NOW + 60, NOW), Ok(()));
    assert_eq!(
        admit_request(&limiter, 7, "https://example.org", NOW + 60, NOW),
        Err(CreateError::RateLimited)
    );
}

#[test]
fn refused_request_still_uses_the_quota() {
    let limiter = ClientLimiter::new();
    assert_eq!(
        admit_request(&limiter, 3, "ftp://example.com", NOW + 60, NOW),
        Err(CreateError::Invalid(ValidationError::DisallowedScheme))
    );
    assert_eq!(
        admit_request(&limiter, 3, "https://example.com", NOW + 60, NOW),
        Err(CreateError::RateLimited)
    );
}
