use cazzmachine_lib::buffer::approximate_cost_hundredths;
use cazzmachine_lib::recency::{
    instant_to_millis, last_active_from_millis, minutes_between, recency_band, recency_minutes_at,
    ClockReading, RecencyBand, UtcInstant, MAX_UTC_MILLIS, MIN_UTC_MILLIS,
};

fn clock(seconds: i64, subsec_nanos: u32) -> ClockReading {
    ClockReading { seconds, subsec_nanos }
}

#[test]
fn minutes_round_toward_zero() {
    assert_eq!(minutes_between(&clock(1000, 0), 880), 2);
    assert_eq!(minutes_between(&clock(1000, 0), 941), 0);
    assert_eq!(minutes_between(&clock(1000, 0), 940), 1);
    assert_eq!(minutes_between(&clock(1000, 5), 1030), 0);
    assert_eq!(minutes_between(&clock(1000, 5), 1100), -1);
    assert_eq!(minutes_between(&clock(1000, 0), 1120), -2);
    assert_eq!(minutes_between(&clock(i64::MAX, 0), i64::MIN), (u64::MAX / 60) as i64);
}

#[test]
fn recency_from_stored_timestamp() {
    let now = clock(3600, 0);
    assert_eq!(recency_minutes_at(None, &now), None);
    assert_eq!(recency_minutes_at(Some("not a time"), &now), None);
    assert_eq!(recency_minutes_at(Some("1970-01-01T00:02:00"), &now), Some(58));
    assert_eq!(recency_minutes_at(Some("1970-01-01 00:02:00"), &now), None);
}

#[test]
fn recency_bands() {
    assert_eq!(recency_band(-5), RecencyBand::Full);
    assert_eq!(recency_band(30), RecencyBand::Full);
    assert_eq!(recency_band(31), RecencyBand::Decaying(1));
    assert_eq!(recency_band(359), RecencyBand::Decaying(329));
    assert_eq!(recency_band(360), RecencyBand::Spent);
    assert_eq!(recency_band(420), RecencyBand::Spent);
}

#[test]
fn last_active_millis() {
    let t = last_active_from_millis(1_700_000_000_123).unwrap();
    assert_eq!(t, UtcInstant { secs: 1_700_000_000, nanos: 123_000_000 });
    assert_eq!(instant_to_millis(&t), 1_700_000_000_123);
    let before_epoch = last_active_from_millis(-1).unwrap();
    assert_eq!(before_epoch, UtcInstant { secs: -1, nanos: 999_000_000 });
    assert_eq!(instant_to_millis(&before_epoch), -1);
    assert_eq!(last_active_from_millis(i64::MAX).unwrap_err(), "Invalid timestamp");
}

#[test]
fn last_active_range_is_chronos() {
    let min = chrono::DateTime::<chrono::Utc>::MIN_UTC.timestamp_millis();
    let max = chrono::DateTime::<chrono::Utc>::MAX_UTC.timestamp_millis();
    assert_eq!(min, MIN_UTC_MILLIS);
    assert_eq!(max, MAX_UTC_MILLIS);
    assert!(last_active_from_millis(MIN_UTC_MILLIS).is_ok());
    assert!(last_active_from_millis(MAX_UTC_MILLIS).is_ok());
    assert_eq!(last_active_from_millis(MIN_UTC_MILLIS - 1).unwrap_err(), "Invalid timestamp");
    assert_eq!(last_active_from_millis(MAX_UTC_MILLIS + 1).unwrap_err(), "Invalid timestamp");
    assert_eq!(instant_to_millis(&last_active_from_millis(MAX_UTC_MILLIS).unwrap()), MAX_UTC_MILLIS);
}

#[test]
fn pending_cost_saturates() {
    assert_eq!(approximate_cost_hundredths(u64::MAX / 50), u64::MAX / 50 * 50);
    assert_eq!(approximate_cost_hundredths(u64::MAX / 50 + 1), u64::MAX);
    assert_eq!(approximate_cost_hundredths(u64::MAX), u64::MAX);
}
