use shortroute::allocator::admit_creation;
use shortroute::route::CreateError;
use shortroute::validate::{
    check_creation, is_web_scheme_text, validate_creation, ValidationError, MAX_URL_LENGTH,
};

const NOW: i64 = 1_700_000_000;

fn long_url(total: usize) -> String {
    let mut s = String::from("https://example.com/");
    while s.len() < total {
        s.push('a');
    }
    s
}

#[test]
fn https_destination_in_future_is_accepted() {
    assert_eq!(validate_creation("https://example.com", NOW + 3600, NOW), Ok(()));
    assert_eq!(validate_creation("http://example.com/a?b=c", NOW + 1, NOW), Ok(()));
}

#[test]
fn scheme_case_is_normalised_by_parsing() {
    assert_eq!(validate_creation("HTTPS://Example.com", NOW + 10, NOW), Ok(()));
}

#[test]
fn destination_of_max_length_is_accepted() {
    let url = long_url(MAX_URL_LENGTH);
    assert_eq!(url.chars().count(), 2048);
    assert_eq!(validate_creation(&url, NOW + 10, NOW), Ok(()));
}

#[test]
fn destination_over_max_length_is_too_long() {
    let url = long_url(MAX_URL_LENGTH + 1);
    assert_eq!(
        validate_creation(&url, NOW + 10, NOW),
        Err(ValidationError::DestinationTooLong)
    );
    let junk = "x".repeat(5000);
    assert_eq!(
        validate_creation(&junk, NOW - 10, NOW),
        Err(ValidationError::DestinationTooLong)
    );
}

#[test]
fn length_counts_characters() {
    let mut url = String::from("https://example.com/");
    while url.chars().count() < MAX_URL_LENGTH {
        url.push('é');
    }
    assert!(url.len() > MAX_URL_LENGTH);
    assert_eq!(validate_creation(&url, NOW + 10, NOW), Ok(()));
}

#[test]
fn relative_or_garbage_destination_is_malformed() {
    assert_eq!(
        validate_creation("example.com", NOW + 10, NOW),
        Err(ValidationError::MalformedDestination)
    );
    assert_eq!(
        validate_creation("/just/a/path", NOW + 10, NOW),
        Err(ValidationError::MalformedDestination)
    );
    assert_eq!(validate_creation("", NOW + 10, NOW), Err(ValidationError::MalformedDestination));
}

#[test]
fn other_schemes_are_disallowed() {
    assert_eq!(
        validate_creation("ftp://example.com", NOW + 3600, NOW),
        Err(ValidationError::DisallowedScheme)
    );
    assert_eq!(
        validate_creation("javascript:alert(1)", NOW + 3600, NOW),
        Err(ValidationError::DisallowedScheme)
    );
    assert_eq!(
        validate_creation("httpx://example.com", NOW + 3600, NOW),
        Err(ValidationError::DisallowedScheme)
    );
}

#[test]
fn expiry_at_or_before_now_is_in_the_past() {
    assert_eq!(
        validate_creation("https://example.com", NOW, NOW),
        Err(ValidationError::ExpiryInPast)
    );
    assert_eq!(
        validate_creation("https://example.com", NOW - 1, NOW),
        Err(ValidationError::ExpiryInPast)
    );
    assert_eq!(
        validate_creation("https://example.com", i64::MIN, NOW),
        Err(ValidationError::ExpiryInPast)
    );
}

#[test]
fn scheme_is_checked_before_expiry() {
    assert_eq!(
        validate_creation("ftp://example.com", NOW - 1, NOW),
        Err(ValidationError::DisallowedScheme)
    );
    assert_eq!(
        validate_creation("nope", NOW - 1, NOW),
        Err(ValidationError::MalformedDestination)
    );
}

#[test]
fn check_with_given_scheme() {
    let http = Some(String::from("http"));
    let ftp = Some(String::from("ftp"));
    assert_eq!(check_creation("whatever", &http, NOW + 1, NOW), Ok(()));
    assert_eq!(
        check_creation("whatever", &ftp, NOW + 1, NOW),
        Err(ValidationError::DisallowedScheme)
    );
    assert_eq!(
        check_creation("whatever", &None, NOW + 1, NOW),
        Err(ValidationError::MalformedDestination)
    );
    assert_eq!(
        check_creation("whatever", &http, NOW, NOW),
        Err(ValidationError::ExpiryInPast)
    );
}

#[test]
fn web_scheme_text() {
    assert!(is_web_scheme_text("http"));
    assert!(is_web_scheme_text("https"));
    assert!(!is_web_scheme_text("HTTP"));
    assert!(!is_web_scheme_text("httpss"));
    assert!(!is_web_scheme_text("ftp"));
    assert!(!is_web_scheme_text(""));
}

#[test]
fn rate_limit_comes_before_validation() {
    assert_eq!(
        admit_creation(false, "ftp://example.com", NOW - 5, NOW),
        Err(CreateError::RateLimited)
    );
    assert_eq!(
        admit_creation(false, "https://example.com", NOW + 5, NOW),
        Err(CreateError::RateLimited)
    );
    assert_eq!(admit_creation(true, "https://example.com", NOW + 5, NOW), Ok(()));
    assert_eq!(
        admit_creation(true, "ftp://example.com", NOW + 5, NOW),
        Err(CreateError::Invalid(ValidationError::DisallowedScheme))
    );
}
