use automatic_redshift::sun::{
    get_temperature, interpolate_temperature, sun_times_from_millis, Schedule, SunError, SunTimes,
    Timestamp, HIGH_TEMP, LOW_TEMP, MAX_TIMESTAMP_MS, MIN_TIMESTAMP_MS,
};

const T0: i64 = 1_700_000_000_000;
const HOUR: i64 = 3_600_000;

fn ts(millis: i64) -> Timestamp {
    Timestamp { millis }
}

fn day() -> SunTimes {
    SunTimes {
        dawn: ts(T0),
        sunrise: ts(T0 + HOUR),
        sunset: ts(T0 + 12 * HOUR),
        dusk: ts(T0 + 13 * HOUR),
    }
}

#[test]
fn dawn_window_interpolation() {
    assert_eq!(get_temperature(ts(T0), day()), 4000);
    assert_eq!(get_temperature(ts(T0 + HOUR), day()), 6500);
    assert_eq!(get_temperature(ts(T0 + HOUR / 2), day()), 5250);
}

#[test]
fn night_and_day_are_constant() {
    assert_eq!(get_temperature(ts(T0 - 1), day()), LOW_TEMP);
    assert_eq!(get_temperature(ts(T0 + 6 * HOUR), day()), HIGH_TEMP);
    assert_eq!(get_temperature(ts(T0 + 13 * HOUR), day()), LOW_TEMP);
    assert_eq!(get_temperature(ts(T0 + 20 * HOUR), day()), LOW_TEMP);
}

#[test]
fn empty_dawn_window_gives_day_temperature() {
    let sun = SunTimes { sunrise: ts(T0), ..day() };
    assert_eq!(get_temperature(ts(T0), sun), 6500);
    assert_eq!(interpolate_temperature(ts(T0), ts(T0), ts(T0), 4000, 6500), 6500);
    assert_eq!(interpolate_temperature(ts(T0 + 5), ts(T0), ts(T0), 6500, 4000), 4000);
}

#[test]
fn interpolation_is_clamped() {
    assert_eq!(interpolate_temperature(ts(T0 - HOUR), ts(T0), ts(T0 + HOUR), 4000, 6500), 4000);
    assert_eq!(interpolate_temperature(ts(T0 + 9 * HOUR), ts(T0), ts(T0 + HOUR), 4000, 6500), 6500);
    assert_eq!(interpolate_temperature(ts(T0 + HOUR / 4), ts(T0), ts(T0 + HOUR), 6500, 4000), 5875);
}

#[test]
fn dusk_window_descends() {
    let sun = day();
    let mut last = HIGH_TEMP;
    let mut t = T0 + 12 * HOUR + 60_000;
    while t < T0 + 13 * HOUR - 60_000 {
        let temp = get_temperature(ts(t), sun);
        assert!(temp > LOW_TEMP && temp < HIGH_TEMP);
        assert!(temp <= last);
        last = temp;
        t += 60_000;
    }
    assert_eq!(get_temperature(ts(T0 + 12 * HOUR + HOUR / 2), sun), 5250);
}

#[test]
fn timestamp_range_follows_jiff() {
    assert_eq!(Timestamp::from_millisecond(0), Ok(ts(0)));
    assert_eq!(Timestamp::from_millisecond(MAX_TIMESTAMP_MS), Ok(ts(MAX_TIMESTAMP_MS)));
    assert_eq!(Timestamp::from_millisecond(MIN_TIMESTAMP_MS), Ok(ts(MIN_TIMESTAMP_MS)));
    assert_eq!(
        Timestamp::from_millisecond(MAX_TIMESTAMP_MS + 1),
        Err(SunError::TimestampOutOfRange)
    );
    assert_eq!(
        Timestamp::from_millisecond(MIN_TIMESTAMP_MS - 1),
        Err(SunError::TimestampOutOfRange)
    );
    assert_eq!(Timestamp::from_millisecond(i64::MAX), Err(SunError::TimestampOutOfRange));
}

#[test]
fn sun_times_from_valid_and_invalid_millis() {
    assert_eq!(
        sun_times_from_millis(T0, T0 + HOUR, T0 + 12 * HOUR, T0 + 13 * HOUR),
        Ok(day())
    );
    assert_eq!(
        sun_times_from_millis(T0, T0 + HOUR, i64::MIN, T0 + 13 * HOUR),
        Err(SunError::TimestampOutOfRange)
    );
}

#[test]
fn schedule_reports_changes_once() {
    let mut s = Schedule::new();
    let first = s.recompute(ts(T0 + HOUR / 2), day());
    assert!(first.sun_changed);
    assert_eq!(first.new_temperature, Some(5250));
    let again = s.recompute(ts(T0 + HOUR / 2), day());
    assert!(!again.sun_changed);
    assert_eq!(again.new_temperature, None);
    let noon = s.recompute(ts(T0 + 6 * HOUR), day());
    assert!(!noon.sun_changed);
    assert_eq!(noon.new_temperature, Some(6500));
    let other_day = SunTimes { dusk: ts(T0 + 14 * HOUR), ..day() };
    let moved = s.recompute(ts(T0 + 6 * HOUR), other_day);
    assert!(moved.sun_changed);
    assert_eq!(moved.new_temperature, None);
}

#[test]
fn schedule_starts_at_day_temperature() {
    let mut s = Schedule::new();
    let r = s.recompute(ts(T0 + 6 * HOUR), day());
    assert!(r.sun_changed);
    assert_eq!(r.new_temperature, None);
}
