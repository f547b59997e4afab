use heliocron::domain::{Altitude, Latitude, Longitude};
use heliocron::instant::Instant;
use heliocron::parse::{parse_angle_udeg, parse_date, parse_utc_offset};

#[test]
fn parse_date_accepts_iso_dates() {
    assert_eq!(parse_date("2022-06-21"), Some((2022, 6, 21)));
    assert_eq!(parse_date("0001-01-01"), Some((1, 1, 1)));
    assert_eq!(parse_date("9999-12-31"), Some((9999, 12, 31)));
}

#[test]
fn parse_date_rejects_malformed_dates() {
    assert_eq!(parse_date(""), None);
    assert_eq!(parse_date("2022-6-21"), None);
    assert_eq!(parse_date("2022/06/21"), None);
    assert_eq!(parse_date("22-06-211"), None);
    assert_eq!(parse_date("yyyy-mm-dd"), None);
}

#[test]
fn parse_utc_offset_accepts_signed_offsets() {
    assert_eq!(parse_utc_offset("+00:00"), Some(0));
    assert_eq!(parse_utc_offset("-00:00"), Some(0));
    assert_eq!(parse_utc_offset("+05:30"), Some(5 * 3600 + 30 * 60));
    assert_eq!(parse_utc_offset("-08:00"), Some(-8 * 3600));
    assert_eq!(parse_utc_offset("+23:59"), Some(23 * 3600 + 59 * 60));
    assert_eq!(parse_utc_offset("-23:59"), Some(-(23 * 3600 + 59 * 60)));
}

#[test]
fn parse_utc_offset_rejects_malformed_offsets() {
    assert_eq!(parse_utc_offset("00:00"), None);
    assert_eq!(parse_utc_offset("+24:00"), None);
    assert_eq!(parse_utc_offset("+00:60"), None);
    assert_eq!(parse_utc_offset("+0000"), None);
    assert_eq!(parse_utc_offset("+0:00"), None);
}

#[test]
fn parse_angle_reads_microdegrees_exactly() {
    assert_eq!(parse_angle_udeg("51.4769"), Some(51_476_900));
    assert_eq!(parse_angle_udeg("-0.0005"), Some(-500));
    assert_eq!(parse_angle_udeg("7"), Some(7_000_000));
    assert_eq!(parse_angle_udeg("+7.5"), Some(7_500_000));
    assert_eq!(parse_angle_udeg("0.000001"), Some(1));
    // Digits past the sixth are truncated away.
    assert_eq!(parse_angle_udeg("12.3456789"), Some(12_345_678));
    assert_eq!(parse_angle_udeg("-12.3456789"), Some(-12_345_678));
}

#[test]
fn parse_angle_rejects_malformed_numbers() {
    assert_eq!(parse_angle_udeg(""), None);
    assert_eq!(parse_angle_udeg("-"), None);
    assert_eq!(parse_angle_udeg("1."), None);
    assert_eq!(parse_angle_udeg(".5"), None);
    assert_eq!(parse_angle_udeg("1.2.3"), None);
    assert_eq!(parse_angle_udeg("12a"), None);
    assert_eq!(parse_angle_udeg("200000"), None);
}

#[test]
fn latitude_parse_validates_after_reading() {
    assert_eq!(Latitude::parse("51.4769").unwrap().value(), 51_476_900);
    assert_eq!(Latitude::parse("-90").unwrap().value(), -90_000_000);
    assert!(Latitude::parse("90.000001").is_err());
    assert!(Latitude::parse("not-a-number").is_err());
}

#[test]
fn longitude_parse_validates_after_reading() {
    assert_eq!(Longitude::parse("-0.0005").unwrap().value(), -500);
    assert_eq!(Longitude::parse("180").unwrap().value(), 180_000_000);
    assert!(Longitude::parse("180.5").is_err());
    assert!(Longitude::parse("").is_err());
}

#[test]
fn altitude_parse_validates_after_reading() {
    assert_eq!(Altitude::parse("0.833").unwrap().value(), 833_000);
    assert!(Altitude::parse("90.1").is_err());
}

#[test]
fn instant_day_numbers_match_the_civil_calendar() {
    assert_eq!(Instant::new(1970, 1, 1, 0, 0, 0, 0).unwrap().days(), 0);
    assert_eq!(Instant::new(1970, 1, 2, 0, 0, 0, 0).unwrap().days(), 1);
    assert_eq!(Instant::new(1969, 12, 31, 0, 0, 0, 0).unwrap().days(), -1);
    assert_eq!(Instant::new(2000, 1, 1, 0, 0, 0, 0).unwrap().days(), 10957);
    assert_eq!(Instant::new(2022, 6, 21, 0, 0, 0, 0).unwrap().days(), 19164);
}

#[test]
fn instant_ymd_round_trips() {
    for (y, m, d) in [
        (1970, 1, 1),
        (2000, 2, 29),
        (2022, 6, 21),
        (2022, 12, 21),
        (1, 1, 1),
        (9999, 12, 31),
    ] {
        let i = Instant::new(y, m, d, 12, 0, 0, 0).unwrap();
        assert_eq!(i.ymd(), (y, m, d));
    }
}

#[test]
fn instant_rejects_invalid_components() {
    assert!(Instant::new(2021, 2, 29, 0, 0, 0, 0).is_err());
    assert!(Instant::new(2020, 2, 29, 0, 0, 0, 0).is_ok());
    assert!(Instant::new(2022, 13, 1, 0, 0, 0, 0).is_err());
    assert!(Instant::new(2022, 0, 1, 0, 0, 0, 0).is_err());
    assert!(Instant::new(2022, 4, 31, 0, 0, 0, 0).is_err());
    assert!(Instant::new(2022, 1, 1, 24, 0, 0, 0).is_err());
    assert!(Instant::new(2022, 1, 1, 0, 60, 0, 0).is_err());
    assert!(Instant::new(2022, 1, 1, 0, 0, 0, 86400).is_err());
    assert!(Instant::new(0, 1, 1, 0, 0, 0, 0).is_err());
    assert!(Instant::new(10000, 1, 1, 0, 0, 0, 0).is_err());
}

#[test]
fn instant_keeps_clock_time_and_offset() {
    let i = Instant::new(2022, 6, 21, 13, 45, 30, 3600).unwrap();
    assert_eq!(i.second_of_day(), 13 * 3600 + 45 * 60 + 30);
    assert_eq!(i.offset_seconds(), 3600);
}
