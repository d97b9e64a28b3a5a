use chrono::Timelike as _;
use lava_anomaly::{default_wait, Duration, Timestamp};

#[test]
fn default_wait_is_a_quarter_of_an_hour() {
    assert_eq!(default_wait(), Duration::minutes(15));
    assert_eq!(default_wait().num_seconds(), 900);
    assert_eq!(default_wait().subsec_nanos(), 0);
}

#[test]
fn minutes_are_sixty_seconds() {
    assert_eq!(Duration::minutes(2), Duration::seconds(120));
    assert_eq!(Duration::minutes(-2).num_seconds(), -120);
    assert_eq!(Duration::minutes(153_722_867_280_912).num_seconds(), 9_223_372_036_854_720);
}

#[test]
fn spans_agree_with_chrono() {
    let extremes = [
        chrono::TimeDelta::MIN,
        chrono::TimeDelta::MAX,
        chrono::TimeDelta::zero(),
        chrono::TimeDelta::nanoseconds(-1),
        chrono::TimeDelta::milliseconds(-1_500),
        chrono::TimeDelta::milliseconds(1_500),
    ];
    for delta in extremes {
        let span = Duration::from_parts(delta.num_seconds(), delta.subsec_nanos()).unwrap();
        assert_eq!(span.num_seconds(), delta.num_seconds());
        assert_eq!(span.subsec_nanos(), delta.subsec_nanos());
        for other in extremes {
            let other_span =
                Duration::from_parts(other.num_seconds(), other.subsec_nanos()).unwrap();
            assert_eq!(span < other_span, delta < other);
            assert_eq!(span == other_span, delta == other);
            assert_eq!(span.cmp(&other_span), delta.cmp(&other));
        }
    }
}

#[test]
fn parts_that_are_no_span_are_refused() {
    assert!(Duration::from_parts(1, -1).is_none());
    assert!(Duration::from_parts(-1, 1).is_none());
    assert!(Duration::from_parts(0, 1_000_000_000).is_none());
    assert!(Duration::from_parts(0, -1_000_000_000).is_none());
    assert!(Duration::from_parts(9_223_372_036_854_775, 807_000_001).is_none());
    assert!(Duration::from_parts(-9_223_372_036_854_775, -807_000_001).is_none());
    assert!(Duration::from_parts(i64::MAX, 0).is_none());
    assert!(Duration::from_parts(i64::MIN, 0).is_none());
    assert!(Duration::from_parts(9_223_372_036_854_775, 807_000_000).is_some());
}

fn chrono_instant(secs: i64, nanos: u32) -> Option<chrono::DateTime<chrono::Utc>> {
    let whole = chrono::DateTime::from_timestamp(secs, 0)?;
    Some(whole.naive_utc().with_nanosecond(nanos)?.and_utc())
}

#[test]
fn timestamps_have_the_range_of_chrono() {
    let (first, last) = (-8_334_601_228_800, 8_210_266_876_799);
    assert_eq!(chrono::DateTime::<chrono::Utc>::MIN_UTC.timestamp(), first);
    assert_eq!(chrono::DateTime::<chrono::Utc>::MAX_UTC.timestamp(), last);
    let seconds = [first - 1, first, -1, 0, 58, 59, 60, 119, last, last + 1, i64::MIN, i64::MAX];
    let nanos = [0, 999_999_999, 1_000_000_000, 1_999_999_999, 2_000_000_000, u32::MAX];
    for secs in seconds {
        for nanos in nanos {
            let ours = Timestamp::from_parts(secs, nanos);
            let theirs = chrono_instant(secs, nanos);
            assert_eq!(ours.is_some(), theirs.is_some());
            if let Some(instant) = ours {
                assert_eq!(instant.unix_seconds(), secs);
                assert_eq!(instant.subsec_nanos(), nanos);
            }
        }
    }
}

#[test]
fn leap_seconds_follow_any_second() {
    assert!(Timestamp::from_parts(59, 1_000_000_000).is_some());
    assert!(Timestamp::from_parts(58, 1_500_000_000).is_some());
    assert!(Timestamp::from_parts(-1, 1_999_999_999).is_some());
    assert!(Timestamp::from_parts(59, 2_000_000_000).is_none());
}

#[test]
fn timestamps_compare_as_in_chrono() {
    let parts = [(0, 0), (0, 1), (58, 1_500_000_000), (59, 500_000_000), (-1, 999_999_999)];
    for (secs, nanos) in parts {
        for (other_secs, other_nanos) in parts {
            let ours = Timestamp::from_parts(secs, nanos).unwrap();
            let other = Timestamp::from_parts(other_secs, other_nanos).unwrap();
            let theirs = chrono_instant(secs, nanos).unwrap();
            let their_other = chrono_instant(other_secs, other_nanos).unwrap();
            assert_eq!(ours == other, theirs == their_other);
            assert_eq!(ours < other, theirs < their_other);
            assert_eq!(ours.cmp(&other), theirs.cmp(&their_other));
        }
    }
}
