use inth_oauth2_async::time::{Timestamp, LAST_NANOS, NANOS_PER_SEC};
use std::time::{SystemTime, UNIX_EPOCH};

#[test]
fn add_secs_counts_in_nanoseconds() {
    assert_eq!(1_000_000_000, NANOS_PER_SEC);
    let t = Timestamp { nanos: 5 };
    assert_eq!(Timestamp { nanos: 5 }, t.add_secs(0));
    assert_eq!(Timestamp { nanos: 1_000_000_005 }, t.add_secs(1));
    assert_eq!(Timestamp { nanos: 3_600_000_000_005 }, t.add_secs(3600));
    // Within the first second after the epoch, every number of seconds fits.
    assert_eq!(
        Timestamp { nanos: 9_223_372_036_854_775_807_000_000_005 },
        t.add_secs(i64::MAX)
    );
    assert_eq!(9_223_372_036_854_775_807_999_999_999, LAST_NANOS);
}

#[test]
fn add_secs_stays_where_it_cannot_go() {
    let t = Timestamp { nanos: 5 };
    assert_eq!(t, t.add_secs(-1));
    assert_eq!(t, t.add_secs(i64::MIN));
    // One second after the epoch, `i64::MAX` seconds lead past the last instant.
    let second = Timestamp { nanos: 1_000_000_005 };
    assert_eq!(second, second.add_secs(i64::MAX));
    assert_eq!(
        Timestamp { nanos: 9_223_372_036_854_775_807_000_000_005 },
        second.add_secs(i64::MAX - 1)
    );
    let now = Timestamp { nanos: 1_700_000_000_123_456_789 };
    assert_eq!(now, now.add_secs(i64::MAX));
    let last = Timestamp { nanos: LAST_NANOS };
    assert_eq!(last, last.add_secs(1));
    assert_eq!(last, last.add_secs(0));
    let near = Timestamp { nanos: LAST_NANOS - 2_000_000_000 };
    assert_eq!(Timestamp { nanos: LAST_NANOS }, near.add_secs(2));
    assert_eq!(near, near.add_secs(3));
    // A time past the last instant stays where it is.
    let beyond = Timestamp { nanos: u128::MAX - 5_000_000_000 };
    assert_eq!(beyond, beyond.add_secs(1));
    assert_eq!(beyond, beyond.add_secs(0));
}

#[test]
fn is_before_is_strict() {
    let early = Timestamp { nanos: 1 };
    let late = Timestamp { nanos: 2 };
    assert!(early.is_before(late));
    assert!(!late.is_before(early));
    assert!(!early.is_before(early));
    assert!(early < late);
}

#[test]
fn now_follows_the_system_clock() {
    let before = SystemTime::now().duration_since(UNIX_EPOCH).unwrap().as_nanos();
    let now = Timestamp::now();
    let after = SystemTime::now().duration_since(UNIX_EPOCH).unwrap().as_nanos();
    assert!(before <= now.nanos);
    assert!(now.nanos <= after);
    assert!(now.nanos > 1_500_000_000 * NANOS_PER_SEC);
    assert!(now.nanos <= LAST_NANOS);
}

#[test]
fn from_reading_stays_between_the_epoch_and_the_last_instant() {
    assert_eq!(Timestamp { nanos: 0 }, Timestamp::from_reading(None));
    assert_eq!(Timestamp { nanos: 0 }, Timestamp::from_reading(Some(0)));
    assert_eq!(Timestamp { nanos: 1_700_000_000_123_456_789 }, Timestamp::from_reading(Some(1_700_000_000_123_456_789)));
    assert_eq!(Timestamp { nanos: LAST_NANOS }, Timestamp::from_reading(Some(LAST_NANOS)));
    assert_eq!(Timestamp { nanos: LAST_NANOS }, Timestamp::from_reading(Some(LAST_NANOS + 1)));
    assert_eq!(Timestamp { nanos: LAST_NANOS }, Timestamp::from_reading(Some(u128::MAX)));
}
