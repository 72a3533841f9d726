use std::time::Duration;

use urls2disk::utils::{
    checked_duration_to_millis, decimal_string, duration_millis, duration_to_millis,
};

#[test]
fn test_duration_to_millis() {
    let expected = 2000;
    let duration = Duration::from_millis(expected);
    let millis = duration_to_millis(duration);
    assert_eq!(expected, millis)
}

#[test]
fn duration_to_millis_drops_what_is_below_a_millisecond() {
    assert_eq!(duration_to_millis(Duration::new(3, 999_999)), 3000);
    assert_eq!(duration_to_millis(Duration::new(3, 1_000_000)), 3001);
    assert_eq!(duration_to_millis(Duration::new(0, 999_999_999)), 999);
    assert_eq!(duration_to_millis(Duration::new(0, 0)), 0);
}

#[test]
fn duration_millis_holds_the_longest_duration() {
    let longest = Duration::new(u64::MAX, 999_999_999);
    assert_eq!(duration_millis(longest), (u64::MAX as u128) * 1000 + 999);
    assert_eq!(duration_millis(longest), longest.as_millis());
}

#[test]
fn checked_duration_to_millis_gives_nothing_past_64_bits() {
    assert_eq!(checked_duration_to_millis(Duration::from_millis(2000)), Some(2000));
    let last = Duration::new(u64::MAX / 1000, 615_000_000);
    assert_eq!(checked_duration_to_millis(last), Some(u64::MAX));
    let first_too_long = Duration::new(u64::MAX / 1000, 616_000_000);
    assert_eq!(checked_duration_to_millis(first_too_long), None);
    assert_eq!(checked_duration_to_millis(Duration::new(u64::MAX, 0)), None);
}

#[test]
fn decimal_string_writes_numbers_as_the_standard_library_does() {
    assert_eq!(decimal_string(0), "0");
    assert_eq!(decimal_string(7), "7");
    assert_eq!(decimal_string(10), "10");
    assert_eq!(decimal_string(96), "96");
    assert_eq!(decimal_string(600), "600");
    assert_eq!(decimal_string(1_234_567_890), "1234567890");
    assert_eq!(decimal_string(u64::MAX as u128), u64::MAX.to_string());
    assert_eq!(decimal_string(u128::MAX), u128::MAX.to_string());
}
