use mcp_adapters::{CreateEventArgs, Timestamp};

#[test]
fn parse_takes_a_timestamp_apart() {
    let parsed = Timestamp::parse_rfc3339("2023-12-25T10:00:00+09:00").unwrap();
    assert_eq!(parsed.unix_seconds(), 1_703_466_000);
    assert_eq!(parsed.subsec_nanos(), 0);
    assert_eq!(parsed.offset_seconds(), 32_400);
}

#[test]
fn parse_reads_fraction_and_negative_offset() {
    let parsed = Timestamp::parse_rfc3339("1969-12-31T18:29:59.25-05:30").unwrap();
    assert_eq!(parsed.unix_seconds(), -1);
    assert_eq!(parsed.subsec_nanos(), 250_000_000);
    assert_eq!(parsed.offset_seconds(), -19_800);
}

#[test]
fn parse_keeps_a_leap_second_in_the_fraction() {
    let parsed = Timestamp::parse_rfc3339("2016-12-31T23:59:60Z").unwrap();
    assert_eq!(parsed.unix_seconds(), 1_483_228_799);
    assert_eq!(parsed.subsec_nanos(), 1_000_000_000);
    assert_eq!(parsed.offset_seconds(), 0);
}

#[test]
fn parse_rejects_what_is_not_rfc3339() {
    assert_eq!(Timestamp::parse_rfc3339("tomorrow at 3pm"), None);
    assert_eq!(Timestamp::parse_rfc3339(""), None);
    assert_eq!(Timestamp::parse_rfc3339("2023-12-25"), None);
    assert_eq!(Timestamp::parse_rfc3339("2023-12-25T10:00:00"), None);
    assert_eq!(Timestamp::parse_rfc3339("2023-13-25T10:00:00+09:00"), None);
    assert_eq!(Timestamp::parse_rfc3339("2023-02-29T10:00:00+09:00"), None);
    assert_eq!(Timestamp::parse_rfc3339("2023-12-25T24:00:00+09:00"), None);
    assert_eq!(Timestamp::parse_rfc3339("2023-12-25T10:00:00+24:00"), None);
    assert_eq!(Timestamp::parse_rfc3339("2023-12-25T10:00:00+09:00 "), None);
}

#[test]
fn parse_stays_within_four_digit_years() {
    let first = Timestamp::parse_rfc3339("0000-01-01T00:00:00+23:59").unwrap();
    assert_eq!(first.unix_seconds(), -62_167_305_540);
    let last = Timestamp::parse_rfc3339("9999-12-31T23:59:59-23:59").unwrap();
    assert_eq!(last.unix_seconds(), 253_402_387_139);
    assert_eq!(last.plus_one_hour().unwrap().unix_seconds(), 253_402_390_739);
}

#[test]
fn new_keeps_the_parts() {
    let made = Timestamp::new(1_703_466_000, 5, 32_400).unwrap();
    assert_eq!(made.unix_seconds(), 1_703_466_000);
    assert_eq!(made.subsec_nanos(), 5);
    assert_eq!(made.offset_seconds(), 32_400);
    assert_eq!(Some(made), Timestamp::parse_rfc3339("2023-12-25T10:00:00.000000005+09:00"));
}

#[test]
fn new_rejects_a_second_out_of_reach() {
    assert!(Timestamp::new(8_000_000_000_000, 0, 0).is_some());
    assert!(Timestamp::new(8_000_000_000_001, 0, 0).is_none());
    assert!(Timestamp::new(-8_000_000_000_000, 0, 0).is_some());
    assert!(Timestamp::new(-8_000_000_000_001, 0, 0).is_none());
    assert!(Timestamp::new(i64::MAX, 0, 0).is_none());
    assert!(Timestamp::new(i64::MIN, 0, 0).is_none());
}

#[test]
fn new_rejects_an_offset_of_a_day() {
    assert!(Timestamp::new(0, 0, 86_399).is_some());
    assert!(Timestamp::new(0, 0, 86_400).is_none());
    assert!(Timestamp::new(0, 0, -86_399).is_some());
    assert!(Timestamp::new(0, 0, -86_400).is_none());
}

#[test]
fn new_takes_a_leap_fraction_only_in_second_59() {
    assert!(Timestamp::new(59, 1_000_000_000, 0).is_some());
    assert!(Timestamp::new(59, 1_999_999_999, 0).is_some());
    assert!(Timestamp::new(59, 2_000_000_000, 0).is_none());
    assert!(Timestamp::new(58, 1_000_000_000, 0).is_none());
    assert!(Timestamp::new(60, 1_000_000_000, 0).is_none());
    assert!(Timestamp::new(-1, 1_000_000_000, 0).is_some());
    assert!(Timestamp::new(-2, 1_000_000_000, 0).is_none());
    assert!(Timestamp::new(-61, 1_500_000_000, 0).is_some());
    assert!(Timestamp::new(58, 999_999_999, 0).is_some());
}

#[test]
fn plus_one_hour_adds_3600_seconds_and_keeps_the_offset() {
    let start = Timestamp::new(1_703_466_000, 125, 32_400).unwrap();
    let end = start.plus_one_hour().unwrap();
    assert_eq!(end.unix_seconds(), 1_703_469_600);
    assert_eq!(end.subsec_nanos(), 125);
    assert_eq!(end.offset_seconds(), 32_400);
    assert_ne!(end, start);
}

#[test]
fn plus_one_hour_leaves_a_leap_second() {
    let start = Timestamp::new(1_483_228_799, 1_500_000_000, 0).unwrap();
    let end = start.plus_one_hour().unwrap();
    assert_eq!(end.unix_seconds(), 1_483_232_399);
    assert_eq!(end.subsec_nanos(), 500_000_000);
    assert_eq!(end.offset_seconds(), 0);
    assert_eq!(end.to_rfc3339(), "2017-01-01T00:59:59.500+00:00");
}

#[test]
fn plus_one_hour_stops_at_the_last_second() {
    let fits = Timestamp::new(8_000_000_000_000 - 3_600, 0, 0).unwrap();
    assert_eq!(fits.plus_one_hour().unwrap().unix_seconds(), 8_000_000_000_000);
    let late = Timestamp::new(8_000_000_000_000 - 3_599, 0, 0).unwrap();
    assert_eq!(late.plus_one_hour(), None);
    let first = Timestamp::new(-8_000_000_000_000, 0, -3_600).unwrap();
    assert_eq!(first.plus_one_hour().unwrap().unix_seconds(), -8_000_000_000_000 + 3_600);
}

#[test]
fn to_rfc3339_writes_local_time_and_offset() {
    assert_eq!(
        Timestamp::new(1_703_466_000, 0, 32_400).unwrap().to_rfc3339(),
        "2023-12-25T10:00:00+09:00"
    );
    assert_eq!(
        Timestamp::new(1_703_466_000, 0, 0).unwrap().to_rfc3339(),
        "2023-12-25T01:00:00+00:00"
    );
    assert_eq!(
        Timestamp::new(-1, 250_000_000, -19_800).unwrap().to_rfc3339(),
        "1969-12-31T18:29:59.250-05:30"
    );
    assert_eq!(
        Timestamp::new(1_483_228_799, 1_000_000_000, 0).unwrap().to_rfc3339(),
        "2016-12-31T23:59:60+00:00"
    );
}

#[test]
fn to_rfc3339_writes_the_whole_range() {
    let last = Timestamp::new(8_000_000_000_000, 0, 86_399).unwrap();
    assert_eq!(last.to_rfc3339(), "+255479-11-29T14:13:19+24:00");
    let first = Timestamp::new(-8_000_000_000_000, 0, -86_399).unwrap();
    assert_eq!(first.to_rfc3339(), "-251540-02-02T09:46:41-24:00");
}

#[test]
fn one_hour_writes_both_ends() {
    let start = Timestamp::new(1_703_466_000, 0, 32_400).unwrap();
    let args = CreateEventArgs::one_hour(String::from("Meeting"), &start).unwrap();
    assert_eq!(
        args,
        CreateEventArgs {
            summary: String::from("Meeting"),
            description: None,
            start_datetime: String::from("2023-12-25T10:00:00+09:00"),
            end_datetime: String::from("2023-12-25T11:00:00+09:00"),
            timezone: None,
        }
    );
}

#[test]
fn one_hour_needs_room_for_the_hour() {
    let late = Timestamp::new(8_000_000_000_000, 0, 0).unwrap();
    assert_eq!(CreateEventArgs::one_hour(String::from("Late"), &late), None);
}
