use std::time::{SystemTime, UNIX_EPOCH};
use tiered_cache::text::{decimal_text, parse_number};
use tiered_cache::time::{Duration, Timestamp};

#[test]
fn durations_count_nanoseconds() {
    assert_eq!(Duration::from_secs(3).as_nanos(), 3_000_000_000);
    assert_eq!(Duration::from_nanos(2_500_000_001).as_nanos(), 2_500_000_001);
    assert_eq!(Duration::from_nanos(2_500_000_001), Duration { secs: 2, nanos: 500_000_001 });
    assert_eq!(Duration::from_secs(u64::MAX).as_nanos(), u64::MAX as i128 * 1_000_000_000);
}

#[test]
fn readings_before_the_epoch_are_negative() {
    assert_eq!(Timestamp::from_reading(Ok((2, 5))).as_nanos(), 2_000_000_005);
    assert_eq!(Timestamp::from_reading(Err((2, 5))).as_nanos(), -2_000_000_005);
    let before = Timestamp::from_reading(Err((1, 0)));
    let after = Timestamp::since_epoch(1, 0);
    assert!(before.is_before(&after));
    assert!(!after.is_before(&before));
    assert!(!after.is_before(&after));
    assert!(!before.is_within(&Duration::from_secs(2), &after));
    assert!(before.is_within(&Duration { secs: 2, nanos: 1 }, &after));
}

#[test]
fn now_is_what_the_system_clock_shows() {
    let low = SystemTime::now().duration_since(UNIX_EPOCH).unwrap().as_nanos() as i128;
    let now = Timestamp::now().as_nanos();
    let high = SystemTime::now().duration_since(UNIX_EPOCH).unwrap().as_nanos() as i128;
    assert!(low <= now && now <= high);
}

#[test]
fn decimal_text_matches_formatting() {
    for n in [0u64, 7, 9, 10, 11, 99, 100, 101, 300, 12345, 1_000_000, u64::MAX] {
        assert_eq!(decimal_text(n), format!("{}", n));
    }
}

#[test]
fn numbers_are_read_back() {
    for n in [0u64, 9, 10, 60, 300, 10000, u64::MAX - 1, u64::MAX] {
        assert_eq!(parse_number(&decimal_text(n), u64::MAX), Some(n));
    }
}

#[test]
fn spellings_agree_with_the_standard_library() {
    for text in [
        "", "+", "-", "0", "+0", "-0", "007", "+42", "++1", "1+", "1 ", " 1", "1_000", "0x10", "12a",
        "18446744073709551615", "18446744073709551616", "+18446744073709551615",
        "99999999999999999999999", "00000000000000000000000000001", "\u{0661}", "\u{e9}",
    ] {
        assert_eq!(parse_number(text, u64::MAX), text.parse::<u64>().ok(), "{:?}", text);
    }
}

#[test]
fn numbers_above_the_limit_are_refused() {
    assert_eq!(parse_number("255", 255), Some(255));
    assert_eq!(parse_number("256", 255), None);
    assert_eq!(parse_number("2550", 255), None);
    assert_eq!(parse_number("3", 2), None);
    assert_eq!(parse_number("0", 0), Some(0));
}

#[test]
fn durations_are_rounded_to_two_digits() {
    assert_eq!(Duration { secs: 1, nanos: 500_000_000 }.rounded(), "1.50s");
    assert_eq!(Duration { secs: 0, nanos: 1_234_567 }.rounded(), "1.23ms");
    assert_eq!(Duration { secs: 0, nanos: 1_238_000 }.rounded(), "1.24ms");
    assert_eq!(Duration { secs: 0, nanos: 2_500 }.rounded(), "2.50\u{b5}s");
    assert_eq!(Duration { secs: 0, nanos: 0 }.rounded(), "0.00ns");
}
