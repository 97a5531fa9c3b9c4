use k8s_openapi::jiff;
use kunobi_ha::duration::MAX_NANOS;
use kunobi_ha::leader::lease::lease_seconds;
use kunobi_ha::timestamp::{
    chrono_lease_expired, chrono_to_timestamp, timestamp_to_chrono, DateTime, Timestamp,
    MAX_DATETIME_SECS, MAX_TIMESTAMP_SECOND, MIN_DATETIME_SECS, MIN_TIMESTAMP_SECOND,
    TIMESTAMP_RANGE_TEXT,
};
use kunobi_ha::{Duration, Error, Instant};

// Spans and instants.

#[test]
fn durations_count_nanoseconds() {
    assert_eq!(Duration::zero().as_nanos(), 0);
    assert!(Duration::zero().is_zero());
    assert_eq!(Duration::from_secs(3).as_nanos(), 3_000_000_000);
    assert_eq!(Duration::from_millis(1_999).as_nanos(), 1_999_000_000);
    assert_eq!(Duration::from_millis(1_999).as_secs(), 1);
    assert_eq!(Duration::from_nanos(7).as_nanos(), 7);
    assert!(!Duration::from_nanos(7).is_zero());
    assert_eq!(Duration::new(4, 1_500_000_000).as_nanos(), 5_500_000_000);
}

#[test]
fn longest_duration_is_that_of_std() {
    let longest = std::time::Duration::MAX;
    assert_eq!(longest.as_nanos(), MAX_NANOS);
    let ours = Duration::new(longest.as_secs(), longest.subsec_nanos());
    assert_eq!(ours.as_nanos(), MAX_NANOS);
    assert_eq!(ours.as_secs(), u64::MAX);
}

#[test]
fn instants_never_differ_by_less_than_nothing() {
    let early = Instant::at(Duration::from_secs(5));
    let late = early.plus(Duration::from_millis(250));
    assert_eq!(late.duration_since(early), Duration::from_millis(250));
    assert_eq!(early.duration_since(late), Duration::zero());
    assert!(late.reached(early));
    assert!(late.reached(late));
    assert!(!early.reached(late));
}

#[test]
fn lease_seconds_keep_32_bits() {
    assert_eq!(lease_seconds(Duration::from_secs(15)), 15);
    assert_eq!(lease_seconds(Duration::from_millis(999)), 0);
    assert_eq!(lease_seconds(Duration::from_millis(15_900)), 15);
    assert_eq!(lease_seconds(Duration::from_secs(2_147_483_647)), i32::MAX);
    assert_eq!(lease_seconds(Duration::from_secs(2_147_483_648)), i32::MIN);
    assert_eq!(lease_seconds(Duration::from_secs(4_294_967_301)), 5);
    assert_eq!(lease_seconds(Duration::from_secs(u64::MAX)), -1);
    for secs in [0u64, 15, 1 << 31, (1 << 32) - 1, (1 << 33) + 9, u64::MAX] {
        assert_eq!(lease_seconds(Duration::from_secs(secs)), secs as i32);
    }
}

// The wall clock.

fn to_chrono(time: DateTime) -> chrono::DateTime<chrono::Utc> {
    chrono::DateTime::from_timestamp(time.timestamp(), time.timestamp_subsec_nanos()).unwrap()
}

fn parts(time: DateTime) -> (i64, u32) {
    (time.timestamp(), time.timestamp_subsec_nanos())
}

#[test]
fn clock_shows_the_time() {
    let before = chrono::Utc::now();
    let now = to_chrono(DateTime::now());
    let after = chrono::Utc::now();
    assert!(before <= now && now <= after);
}

#[test]
fn datetime_range_is_that_of_chrono() {
    let first = chrono::DateTime::<chrono::Utc>::MIN_UTC;
    let last = chrono::DateTime::<chrono::Utc>::MAX_UTC;
    assert_eq!(first.timestamp(), MIN_DATETIME_SECS);
    assert_eq!(last.timestamp(), MAX_DATETIME_SECS);
    assert!(DateTime::from_timestamp(MIN_DATETIME_SECS, 0).is_some());
    assert!(DateTime::from_timestamp(MIN_DATETIME_SECS - 1, 0).is_none());
    assert!(DateTime::from_timestamp(MAX_DATETIME_SECS, 999_999_999).is_some());
    assert!(DateTime::from_timestamp(MAX_DATETIME_SECS, 1_999_999_999).is_some());
    assert!(DateTime::from_timestamp(MAX_DATETIME_SECS + 1, 0).is_none());
    assert!(DateTime::from_timestamp(i64::MIN, 0).is_none());
    assert!(DateTime::from_timestamp(i64::MAX, 0).is_none());
}

#[test]
fn leap_seconds_come_last_in_a_minute() {
    assert_eq!(
        DateTime::from_timestamp(59, 1_500_000_000).map(parts),
        Some((59, 1_500_000_000))
    );
    assert!(DateTime::from_timestamp(60, 1_500_000_000).is_none());
    assert!(DateTime::from_timestamp(-1, 1_500_000_000).is_some());
    assert!(DateTime::from_timestamp(-2, 1_500_000_000).is_none());
    assert!(DateTime::from_timestamp(59, 2_000_000_000).is_none());
}

#[test]
fn seconds_are_added_as_chrono_does() {
    let starts = [
        (0i64, 0u32),
        (1_000_000, 123_456_789),
        (-86_401, 999_999_999),
        (59, 1_000_000_000),
        (59, 1_500_000_000),
        (-61, 1_999_999_999),
    ];
    for (secs, nanos) in starts {
        for step in [0i64, 1, 15, 60, -1, -15, -60, 2_147_483_647, -2_147_483_648] {
            let start = DateTime::from_timestamp(secs, nanos).unwrap();
            let sum = to_chrono(start) + chrono::Duration::seconds(step);
            assert_eq!(
                parts(start.plus_seconds(step)),
                (sum.timestamp(), sum.timestamp_subsec_nanos()),
                "{secs} {nanos} {step}"
            );
        }
    }
}

#[test]
fn steps_leave_a_leap_second() {
    let leap = DateTime::from_timestamp(59, 1_500_000_000).unwrap();
    assert_eq!(parts(leap.plus_seconds(0)), (59, 1_500_000_000));
    assert_eq!(parts(leap.plus_seconds(1)), (60, 500_000_000));
    assert_eq!(parts(leap.plus_seconds(-1)), (59, 500_000_000));
}

#[test]
fn datetimes_compare_as_in_chrono() {
    let times = [(-5i64, 7u32), (-5, 8), (0, 0), (59, 999_999_999), (59, 1_000_000_000), (60, 0)];
    for (secs, nanos) in times {
        for (other_secs, other_nanos) in times {
            let time = DateTime::from_timestamp(secs, nanos).unwrap();
            let other = DateTime::from_timestamp(other_secs, other_nanos).unwrap();
            assert_eq!(time.is_after(&other), to_chrono(time) > to_chrono(other));
        }
    }
}

#[test]
fn lease_expires_one_nanosecond_after_its_time() {
    let renewed = DateTime::from_timestamp(1_000_000, 0).unwrap();
    let end = DateTime::from_timestamp(1_000_015, 0).unwrap();
    let past = DateTime::from_timestamp(1_000_015, 1).unwrap();
    assert!(!chrono_lease_expired(end, renewed, 15));
    assert!(chrono_lease_expired(past, renewed, 15));
    assert!(chrono_lease_expired(renewed, renewed, -1));
}

// The times that a lease holds.

#[test]
fn timestamp_range_is_that_of_jiff() {
    assert_eq!(jiff::Timestamp::MIN.as_second(), MIN_TIMESTAMP_SECOND);
    assert_eq!(jiff::Timestamp::MIN.subsec_nanosecond(), 0);
    assert_eq!(jiff::Timestamp::MAX.as_second(), MAX_TIMESTAMP_SECOND);
    assert_eq!(jiff::Timestamp::MAX.subsec_nanosecond(), 999_999_999);
    for second in [MIN_TIMESTAMP_SECOND, -1, 0, 1, MAX_TIMESTAMP_SECOND] {
        let held = Timestamp::from_second(second).unwrap();
        assert_eq!((held.as_second(), held.subsec_nanosecond()), (second, 0));
    }
    for second in [i64::MIN, MIN_TIMESTAMP_SECOND - 1, MAX_TIMESTAMP_SECOND + 1, i64::MAX] {
        assert_eq!(Timestamp::from_second(second), Err(TIMESTAMP_RANGE_TEXT.to_string()));
    }
}

#[test]
fn every_jiff_timestamp_fits() {
    let times = [
        jiff::Timestamp::MIN,
        jiff::Timestamp::MAX,
        jiff::Timestamp::new(-1, -999_999_999).unwrap(),
        jiff::Timestamp::new(0, -1).unwrap(),
        jiff::Timestamp::new(0, 1).unwrap(),
        jiff::Timestamp::new(1_700_000_000, 123_456_000).unwrap(),
        jiff::Timestamp::new(MIN_TIMESTAMP_SECOND + 1, -999_999_999).unwrap(),
    ];
    for time in times {
        let held = Timestamp::new(time.as_second(), time.subsec_nanosecond()).unwrap();
        assert_eq!(held.as_second(), time.as_second());
        assert_eq!(held.subsec_nanosecond(), time.subsec_nanosecond());
    }
}

#[test]
fn timestamp_parts_share_a_sign() {
    assert!(Timestamp::new(1, -1).is_none());
    assert!(Timestamp::new(-1, 1).is_none());
    assert!(Timestamp::new(0, 1_000_000_000).is_none());
    assert!(Timestamp::new(0, -1_000_000_000).is_none());
    assert!(Timestamp::new(MIN_TIMESTAMP_SECOND, -1).is_none());
    assert!(Timestamp::new(MIN_TIMESTAMP_SECOND - 1, 0).is_none());
    assert!(Timestamp::new(MAX_TIMESTAMP_SECOND + 1, 0).is_none());
}

#[test]
fn lease_times_drop_the_fraction() {
    let time = DateTime::from_timestamp(1_700_000_000, 987_654_321).unwrap();
    let held = chrono_to_timestamp(time).unwrap();
    assert_eq!((held.as_second(), held.subsec_nanosecond()), (1_700_000_000, 0));
    assert_eq!(timestamp_to_chrono(&held).map(parts), Some((1_700_000_000, 0)));
    let fraction = Timestamp::new(1_700_000_000, 987_654_321).unwrap();
    assert_eq!(timestamp_to_chrono(&fraction).map(parts), Some((1_700_000_000, 0)));
    let negative = Timestamp::new(-3, -987_654_321).unwrap();
    assert_eq!(timestamp_to_chrono(&negative).map(parts), Some((-3, 0)));
}

#[test]
fn far_future_does_not_fit_into_a_lease() {
    let time = DateTime::from_timestamp(MAX_TIMESTAMP_SECOND + 1, 0).unwrap();
    match chrono_to_timestamp(time) {
        Err(Error::Timestamp(text)) => assert_eq!(
            text,
            "parameter 'Unix timestamp seconds' is not in the required range of \
             -377705023201..=253402207200"
        ),
        other => panic!("a lease cannot hold this time, got {other:?}"),
    }
    let last = DateTime::from_timestamp(MAX_TIMESTAMP_SECOND, 0).unwrap();
    assert!(chrono_to_timestamp(last).is_ok());
}
