use shortroute::clock::{get_unix_epoch, timestamp_from_seconds};
use shortroute::route_id::{generate_route_id, is_ascii_alnum, is_valid_route_id, ID_LENGTH};

#[test]
fn six_alphanumerics_is_a_valid_id() {
    assert!(is_valid_route_id("abc123"));
    assert!(is_valid_route_id("ZZZZZZ"));
    assert!(is_valid_route_id("0a9Bz8"));
}

#[test]
fn wrong_length_ids_are_invalid() {
    assert!(!is_valid_route_id(""));
    assert!(!is_valid_route_id("abc12"));
    assert!(!is_valid_route_id("abc1234"));
}

#[test]
fn ids_with_other_characters_are_invalid() {
    assert!(!is_valid_route_id("abc-12"));
    assert!(!is_valid_route_id("abc 12"));
    assert!(!is_valid_route_id("abcdé1"));
    assert!(!is_valid_route_id("favicon.ico"));
}

#[test]
fn alnum_classification() {
    assert!(is_ascii_alnum('a'));
    assert!(is_ascii_alnum('Z'));
    assert!(is_ascii_alnum('7'));
    assert!(!is_ascii_alnum('_'));
    assert!(!is_ascii_alnum('é'));
}

#[test]
fn generated_ids_have_the_id_shape() {
    for _ in 0..200 {
        let id = generate_route_id();
        assert_eq!(id.chars().count(), ID_LENGTH as usize);
        assert!(id.chars().all(|c| c.is_ascii_alphanumeric()));
        assert!(is_valid_route_id(&id));
    }
}

#[test]
fn generated_ids_vary() {
    let a = generate_route_id();
    let mut differs = false;
    for _ in 0..20 {
        if generate_route_id() != a {
            differs = true;
        }
    }
    assert!(differs);
}

#[test]
fn timestamps_from_clock_readings() {
    assert_eq!(timestamp_from_seconds(Some(1_700_000_000)), 1_700_000_000);
    assert_eq!(timestamp_from_seconds(Some(0)), 0);
    assert_eq!(timestamp_from_seconds(None), 0);
    assert_eq!(timestamp_from_seconds(Some(u64::MAX)), i64::MAX);
    assert_eq!(timestamp_from_seconds(Some(i64::MAX as u64)), i64::MAX);
}

#[test]
fn clock_reads_a_recent_time() {
    let now = get_unix_epoch();
    assert!(now > 1_600_000_000);
    assert!(get_unix_epoch() >= now);
}
