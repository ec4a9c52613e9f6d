use ffs::text::{parse_signed, same_text, signed_text, unsigned_text};
use ffs::utils::{default_job_name, seconds_of, timestamp, DEFAULT_JOB_NAME_PREFIX};
use std::time::{Duration, SystemTime, UNIX_EPOCH};

#[test]
fn unsigned_text_writes_decimal() {
    assert_eq!(unsigned_text(0), "0");
    assert_eq!(unsigned_text(7), "7");
    assert_eq!(unsigned_text(10), "10");
    assert_eq!(unsigned_text(1234567890), "1234567890");
    assert_eq!(unsigned_text(u64::MAX), "18446744073709551615");
}

#[test]
fn signed_text_writes_sign_and_digits() {
    assert_eq!(signed_text(0), "0");
    assert_eq!(signed_text(42), "42");
    assert_eq!(signed_text(-1), "-1");
    assert_eq!(signed_text(i64::MAX), "9223372036854775807");
    assert_eq!(signed_text(i64::MIN), "-9223372036854775808");
}

#[test]
fn signed_text_agrees_with_std() {
    let samples: Vec<i64> = vec![0, 1, -1, 9, 10, -10, 99, 100, 12345, -98765, 4611686018427387904];
    for n in samples {
        assert_eq!(signed_text(n), n.to_string());
    }
}

#[test]
fn parse_signed_reads_plain_numbers() {
    assert_eq!(parse_signed("0"), Some(0));
    assert_eq!(parse_signed("42"), Some(42));
    assert_eq!(parse_signed("007"), Some(7));
    assert_eq!(parse_signed("-15"), Some(-15));
    assert_eq!(parse_signed("+15"), Some(15));
    assert_eq!(parse_signed("-0"), Some(0));
}

#[test]
fn parse_signed_reads_the_limits() {
    assert_eq!(parse_signed("9223372036854775807"), Some(i64::MAX));
    assert_eq!(parse_signed("-9223372036854775808"), Some(i64::MIN));
    assert_eq!(parse_signed("9223372036854775808"), None);
    assert_eq!(parse_signed("-9223372036854775809"), None);
    assert_eq!(parse_signed("99999999999999999999999999999999"), None);
}

#[test]
fn parse_signed_refuses_what_is_no_number() {
    assert_eq!(parse_signed(""), None);
    assert_eq!(parse_signed("-"), None);
    assert_eq!(parse_signed("+"), None);
    assert_eq!(parse_signed("nonexistent-id"), None);
    assert_eq!(parse_signed("12a"), None);
    assert_eq!(parse_signed(" 12"), None);
    assert_eq!(parse_signed("12 "), None);
    assert_eq!(parse_signed("1_000"), None);
    assert_eq!(parse_signed("--1"), None);
    assert_eq!(parse_signed("i-0abc"), None);
    assert_eq!(parse_signed("１２"), None);
}

#[test]
fn parse_signed_agrees_with_std() {
    let samples = vec![
        "0", "5", "-5", "+5", "", "-", "+", "0000", "-0000", "123456789012345678",
        "9223372036854775807", "9223372036854775808", "-9223372036854775808",
        "-9223372036854775809", "x", "1x", "x1", "1.0", "1e3", " 1", "+-1", "٣",
    ];
    for s in samples {
        assert_eq!(parse_signed(s), s.parse::<i64>().ok(), "for {:?}", s);
    }
}

#[test]
fn decimal_text_reads_back() {
    let samples: Vec<i64> = vec![0, 1, -1, 10, -10, 4242, i64::MAX, i64::MIN, 1000000007];
    for n in samples {
        assert_eq!(parse_signed(&signed_text(n)), Some(n));
    }
}

#[test]
fn same_text_compares_characters() {
    assert!(same_text("aws", "aws"));
    assert!(!same_text("aws", "AWS"));
    assert!(!same_text("aws", "aws "));
    assert!(same_text("", ""));
}

#[test]
fn default_job_name_has_prefix_and_seconds() {
    assert_eq!(DEFAULT_JOB_NAME_PREFIX, "ffs-job-");
    assert_eq!(default_job_name(0), "ffs-job-0");
    assert_eq!(default_job_name(1700000000), "ffs-job-1700000000");
}

#[test]
fn timestamp_is_after_2020() {
    let now = timestamp();
    assert!(matches!(now, Some(s) if s > 1_577_836_800));
}

#[test]
fn seconds_of_gives_the_whole_seconds() {
    assert_eq!(seconds_of(Ok(Duration::new(0, 0))), Some(0));
    assert_eq!(seconds_of(Ok(Duration::new(5, 999_999_999))), Some(5));
    assert_eq!(seconds_of(Ok(Duration::from_millis(1_700_000_000_123))), Some(1_700_000_000));
    assert_eq!(seconds_of(Ok(Duration::new(u64::MAX, 1))), Some(u64::MAX));
}

#[test]
fn seconds_of_a_clock_before_1970_is_none() {
    let later = UNIX_EPOCH + Duration::from_secs(10);
    assert_eq!(seconds_of(UNIX_EPOCH.duration_since(later)), None);
    assert_eq!(seconds_of(later.duration_since(UNIX_EPOCH)), Some(10));
}

#[test]
fn timestamp_agrees_with_the_clock() {
    let before = SystemTime::now().duration_since(UNIX_EPOCH).unwrap().as_secs();
    let seen = timestamp().unwrap();
    let after = SystemTime::now().duration_since(UNIX_EPOCH).unwrap().as_secs();
    assert!(before <= seen && seen <= after);
}
