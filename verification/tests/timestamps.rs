use ibapi::errors::Error;
use ibapi::timestamps::encode_timestamp;
use ibapi::timestamps::Timestamp;

#[test]
fn absent_timestamp_is_the_empty_field() {
    assert_eq!(encode_timestamp(&None).unwrap(), "");
}

#[test]
fn utc_timestamp_is_written_as_it_is() {
    let timestamp = Timestamp::utc(2023, 4, 15, 10, 0, 0);
    assert_eq!(timestamp.to_field().unwrap(), "20230415 10:00:00 UTC");
    assert_eq!(timestamp.to_utc(), Some(timestamp));
}

#[test]
fn offsets_are_normalized_to_utc() {
    // four hours behind UTC
    assert_eq!(Timestamp::new(2023, 4, 15, 10, 0, 0, -4 * 3600).to_field().unwrap(), "20230415 14:00:00 UTC");
    // five and a half hours ahead, across midnight
    assert_eq!(Timestamp::new(2024, 3, 1, 2, 15, 30, 19800).to_field().unwrap(), "20240229 20:45:30 UTC");
    // behind UTC, across the end of a year
    assert_eq!(Timestamp::new(1999, 12, 31, 23, 59, 59, -3600).to_field().unwrap(), "20000101 00:59:59 UTC");
    // ahead of UTC by seconds
    assert_eq!(Timestamp::new(2023, 1, 1, 0, 0, 0, 1).to_field().unwrap(), "20221231 23:59:59 UTC");
}

#[test]
fn to_utc_shifts_the_fields() {
    let local = Timestamp::new(2023, 4, 15, 10, 0, 0, -4 * 3600);
    assert_eq!(local.to_utc(), Some(Timestamp::utc(2023, 4, 15, 14, 0, 0)));
}

#[test]
fn years_are_padded_to_four_digits() {
    assert_eq!(Timestamp::utc(987, 6, 5, 4, 3, 2).to_field().unwrap(), "09870605 04:03:02 UTC");
    assert_eq!(Timestamp::utc(7, 1, 1, 0, 0, 0).write_utc().unwrap(), "00070101 00:00:00 UTC");
    assert_eq!(Timestamp::utc(0, 1, 1, 0, 0, 0).write_utc().unwrap(), "00000101 00:00:00 UTC");
    assert!(matches!(Timestamp::utc(10000, 1, 1, 0, 0, 0).write_utc(), Err(Error::InvalidArgument(_))));
    assert!(matches!(Timestamp::utc(-1, 1, 1, 0, 0, 0).write_utc(), Err(Error::InvalidArgument(_))));
}

#[test]
fn edge_years_stay_within_four_digits() {
    assert_eq!(Timestamp::new(1, 1, 1, 0, 0, 0, 93599).to_field().unwrap(), "00001230 22:00:01 UTC");
    assert_eq!(Timestamp::new(9998, 12, 31, 23, 59, 59, -93599).to_field().unwrap(), "99990102 01:59:58 UTC");
}

#[test]
fn well_formedness_follows_the_calendar() {
    assert!(Timestamp::utc(2024, 2, 29, 0, 0, 0).is_well_formed());
    assert!(!Timestamp::utc(2023, 2, 29, 0, 0, 0).is_well_formed());
    assert!(!Timestamp::utc(1900, 2, 29, 0, 0, 0).is_well_formed());
    assert!(Timestamp::utc(2000, 2, 29, 0, 0, 0).is_well_formed());
    assert!(Timestamp::utc(2023, 4, 30, 23, 59, 59).is_well_formed());
    assert!(!Timestamp::utc(2023, 4, 31, 0, 0, 0).is_well_formed());
    assert!(!Timestamp::utc(2023, 0, 1, 0, 0, 0).is_well_formed());
    assert!(!Timestamp::utc(2023, 13, 1, 0, 0, 0).is_well_formed());
    assert!(!Timestamp::utc(2023, 1, 0, 0, 0, 0).is_well_formed());
    assert!(!Timestamp::utc(2023, 1, 1, 24, 0, 0).is_well_formed());
    assert!(!Timestamp::utc(2023, 1, 1, 0, 60, 0).is_well_formed());
    assert!(!Timestamp::utc(2023, 1, 1, 0, 0, 60).is_well_formed());
    assert!(Timestamp::utc(0, 1, 1, 0, 0, 0).is_well_formed());
    assert!(Timestamp::utc(9999, 12, 31, 23, 59, 59).is_well_formed());
    assert!(!Timestamp::utc(10000, 1, 1, 0, 0, 0).is_well_formed());
    assert!(!Timestamp::utc(-1, 12, 31, 23, 59, 59).is_well_formed());
    assert!(Timestamp::new(2023, 1, 1, 0, 0, 0, 93599).is_well_formed());
    assert!(!Timestamp::new(2023, 1, 1, 0, 0, 0, 93600).is_well_formed());
    assert!(!Timestamp::new(2023, 1, 1, 0, 0, 0, -93600).is_well_formed());
}

#[test]
fn malformed_timestamp_is_refused() {
    let timestamp = Timestamp::utc(2023, 2, 30, 10, 0, 0);
    assert_eq!(timestamp.to_utc(), None);
    match timestamp.to_field() {
        Err(Error::InvalidArgument(reason)) => assert_eq!(reason, "timestamp is not a date and time that can be sent"),
        _ => panic!("expected an invalid argument"),
    }
    assert!(matches!(encode_timestamp(&Some(timestamp)), Err(Error::InvalidArgument(_))));
}

#[test]
fn first_and_last_year_are_encoded() {
    assert_eq!(Timestamp::utc(9999, 6, 15, 12, 0, 0).to_field().unwrap(), "99990615 12:00:00 UTC");
    assert_eq!(Timestamp::utc(9999, 12, 31, 23, 59, 59).to_field().unwrap(), "99991231 23:59:59 UTC");
    assert_eq!(Timestamp::utc(0, 1, 1, 0, 0, 0).to_field().unwrap(), "00000101 00:00:00 UTC");
    assert_eq!(Timestamp::new(9999, 12, 31, 23, 0, 0, 3600).to_field().unwrap(), "99991231 22:00:00 UTC");
    assert_eq!(Timestamp::new(0, 1, 1, 0, 30, 0, -3600).to_field().unwrap(), "00000101 01:30:00 UTC");
}

#[test]
fn only_a_shift_out_of_the_four_digit_years_is_refused() {
    // behind UTC at the end of the last year: the instant lies in the year 10000
    let late = Timestamp::new(9999, 12, 31, 23, 0, 0, -7200);
    assert!(!late.is_well_formed());
    assert!(matches!(late.to_field(), Err(Error::InvalidArgument(_))));
    assert_eq!(late.to_utc(), None);
    // two days forward from the thirtieth
    assert!(!Timestamp::new(9999, 12, 30, 23, 0, 0, -93599).is_well_formed());
    assert!(Timestamp::new(9999, 12, 29, 23, 0, 0, -93599).is_well_formed());
    // ahead of UTC at the start of the year 0: the instant lies in the year before
    let early = Timestamp::new(0, 1, 1, 0, 30, 0, 3600);
    assert!(!early.is_well_formed());
    assert!(matches!(early.to_field(), Err(Error::InvalidArgument(_))));
    assert!(!Timestamp::new(0, 1, 2, 0, 0, 0, 93599).is_well_formed());
    assert!(Timestamp::new(0, 1, 3, 0, 0, 0, 93599).is_well_formed());
    // a local time in the year before the year 0 whose instant lies in the year 0
    let before = Timestamp::new(-1, 12, 31, 23, 0, 0, -7200);
    assert!(before.is_well_formed());
    assert_eq!(before.to_field().unwrap(), "00000101 01:00:00 UTC");
    assert_eq!(before.to_utc(), Some(Timestamp::utc(0, 1, 1, 1, 0, 0)));
}

#[test]
fn the_calendar_reaches_back_before_the_year_zero() {
    assert!(Timestamp::utc(-4, 2, 29, 0, 0, 0).is_calendar_date_time());
    assert!(!Timestamp::utc(-1, 2, 29, 0, 0, 0).is_calendar_date_time());
    assert!(!Timestamp::utc(-100, 2, 29, 0, 0, 0).is_calendar_date_time());
    assert!(Timestamp::utc(-400, 2, 29, 0, 0, 0).is_calendar_date_time());
    assert!(Timestamp::utc(-9999, 1, 1, 0, 0, 0).is_calendar_date_time());
    assert!(!Timestamp::utc(-10000, 1, 1, 0, 0, 0).is_calendar_date_time());
    assert!(!Timestamp::utc(-4, 2, 29, 0, 0, 0).is_calendar_time());
    assert!(Timestamp::utc(4, 2, 29, 0, 0, 0).is_calendar_time());
}

#[test]
fn one_instant_at_different_offsets_is_encoded_alike() {
    let utc = Timestamp::utc(2024, 1, 1, 0, 30, 0);
    let west = Timestamp::new(2023, 12, 31, 19, 30, 0, -5 * 3600);
    let east = Timestamp::new(2024, 1, 1, 10, 15, 0, 35100);
    let far = Timestamp::new(2024, 1, 2, 2, 29, 59, 93599);
    assert_eq!(west.to_field().unwrap(), utc.to_field().unwrap());
    assert_eq!(east.to_field().unwrap(), utc.to_field().unwrap());
    assert_eq!(far.to_field().unwrap(), utc.to_field().unwrap());
    assert_eq!(west.to_utc(), Some(utc));
}
