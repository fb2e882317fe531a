use job_search::utils::{convert_option_string_to_option_date, format_time, parse_time, Timestamp};

#[test]
fn test_parse_time() {
    let string_time = "2020-05-14 21:16:39";

    let result = parse_time(string_time).unwrap();

    assert_eq!(result.year(), 2020);
}

#[test]
fn parse_time_reads_every_component() {
    let result = parse_time("2020-05-14 21:16:39").unwrap();

    assert_eq!(result.year(), 2020);
    assert_eq!(result.month(), 5);
    assert_eq!(result.day(), 14);
    assert_eq!(result.hour(), 21);
    assert_eq!(result.minute(), 16);
    assert_eq!(result.second(), 39);
}

#[test]
fn parse_time_refuses_malformed_text() {
    assert_eq!(parse_time(""), None);
    assert_eq!(parse_time("2020-05-14"), None);
    assert_eq!(parse_time("2020-05-14 21:16:3"), None);
    assert_eq!(parse_time("2020-05-14 21:16:390"), None);
    assert_eq!(parse_time("2020-05-14T21:16:39"), None);
    assert_eq!(parse_time("2020/05/14 21:16:39"), None);
    assert_eq!(parse_time("2020-05-14 21.16.39"), None);
    assert_eq!(parse_time("20x0-05-14 21:16:39"), None);
    assert_eq!(parse_time("2020-05-14 21:16:3é"), None);
    assert_eq!(parse_time("+020-05-14 21:16:39"), None);
}

#[test]
fn parse_time_refuses_moments_that_do_not_exist() {
    assert_eq!(parse_time("2020-00-14 21:16:39"), None);
    assert_eq!(parse_time("2020-13-14 21:16:39"), None);
    assert_eq!(parse_time("2020-05-00 21:16:39"), None);
    assert_eq!(parse_time("2020-04-31 21:16:39"), None);
    assert_eq!(parse_time("2021-02-29 21:16:39"), None);
    assert_eq!(parse_time("1900-02-29 21:16:39"), None);
    assert_eq!(parse_time("2020-05-14 24:00:00"), None);
    assert_eq!(parse_time("2020-05-14 23:60:00"), None);
    assert_eq!(parse_time("2020-05-14 23:59:60"), None);
}

#[test]
fn parse_time_accepts_the_edges_of_the_calendar() {
    assert!(parse_time("2020-02-29 00:00:00").is_some());
    assert!(parse_time("2000-02-29 23:59:59").is_some());
    assert!(parse_time("0000-01-01 00:00:00").is_some());
    assert!(parse_time("9999-12-31 23:59:59").is_some());
}

#[test]
fn timestamp_new_checks_its_components() {
    let t = Timestamp::new(2020, 5, 14, 21, 16, 39).unwrap();
    assert_eq!(Some(t), parse_time("2020-05-14 21:16:39"));
    assert_eq!(Timestamp::new(2020, 2, 30, 0, 0, 0), None);
    assert_eq!(Timestamp::new(10000, 1, 1, 0, 0, 0), None);
    assert_eq!(Timestamp::new(-1, 1, 1, 0, 0, 0), None);
    assert_eq!(Timestamp::new(2020, 1, 1, 24, 0, 0), None);
}

#[test]
fn format_time_writes_the_stored_form() {
    let t = Timestamp::new(2020, 5, 14, 21, 16, 39).unwrap();
    assert_eq!(format_time(&t), "2020-05-14 21:16:39");
    let early = Timestamp::new(7, 1, 2, 3, 4, 5).unwrap();
    assert_eq!(format_time(&early), "0007-01-02 03:04:05");
}

#[test]
fn format_then_parse_gives_the_timestamp_back() {
    let t = Timestamp::new(1999, 12, 31, 23, 59, 59).unwrap();
    assert_eq!(parse_time(&format_time(&t)), Some(t));
}

#[test]
fn convert_option_string_to_option_date_is_lenient() {
    assert_eq!(convert_option_string_to_option_date(None), None);
    assert_eq!(convert_option_string_to_option_date(Some("soon".to_string())), None);
    let t = convert_option_string_to_option_date(Some("2020-05-14 21:16:39".to_string()));
    assert_eq!(t, Timestamp::new(2020, 5, 14, 21, 16, 39));
    assert!(t.is_some());
}
