use odbc2parquet::calendar::{
    date_from_days, days_since_epoch, micros_since_midnight, timestamp_from_micros,
    timestamp_micros,
};

#[test]
fn days_of_known_dates() {
    assert_eq!(days_since_epoch(1970, 1, 1), 0);
    assert_eq!(days_since_epoch(1970, 1, 2), 1);
    assert_eq!(days_since_epoch(2000, 3, 1), 11017);
    assert_eq!(days_since_epoch(2024, 2, 29), 19782);
    assert_eq!(days_since_epoch(1969, 12, 31), -1);
    assert_eq!(days_since_epoch(1900, 3, 1), -25508);
}

#[test]
fn dates_of_known_days() {
    assert_eq!(date_from_days(0), (1970, 1, 1));
    assert_eq!(date_from_days(11017), (2000, 3, 1));
    assert_eq!(date_from_days(19782), (2024, 2, 29));
    assert_eq!(date_from_days(-1), (1969, 12, 31));
    assert_eq!(date_from_days(-25508), (1900, 3, 1));
}

#[test]
fn dates_round_trip() {
    for days in (-800_000..800_000).step_by(997) {
        let (y, m, d) = date_from_days(days);
        assert_eq!(days_since_epoch(y as i16, m, d), days);
    }
}

#[test]
fn time_of_day_in_micros() {
    assert_eq!(micros_since_midnight(0, 0, 0), 0);
    assert_eq!(micros_since_midnight(1, 2, 3), 3_723_000_000);
    assert_eq!(micros_since_midnight(23, 59, 59), 86_399_000_000);
}

#[test]
fn timestamps_in_micros() {
    assert_eq!(timestamp_micros(1970, 1, 1, 0, 0, 0, 0), 0);
    assert_eq!(timestamp_micros(1970, 1, 1, 0, 0, 1, 500_000_000), 1_500_000);
    assert_eq!(timestamp_micros(1969, 12, 31, 23, 59, 59, 999_999_999), -1);
    assert_eq!(timestamp_micros(2001, 9, 9, 1, 46, 40, 0), 1_000_000_000_000_000);
}

#[test]
fn timestamps_from_micros() {
    assert_eq!(timestamp_from_micros(0), ((1970, 1, 1), 0, 0, 0, 0));
    assert_eq!(timestamp_from_micros(-1), ((1969, 12, 31), 23, 59, 59, 999_999_000));
    assert_eq!(
        timestamp_from_micros(1_000_000_000_000_123),
        ((2001, 9, 9), 1, 46, 40, 123_000)
    );
}
