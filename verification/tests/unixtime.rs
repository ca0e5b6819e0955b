use chrono::{DateTime, Utc};
use tuitools::key::KeyInput;
use tuitools::msg::UnixTimeMsg;
use tuitools::pages::unixtime::{
    is_valid_datetime_format, parse_as_unix_timestamp, to_timestamp, Resolution, Status,
    UnixTimePage,
};

fn parse_from_rfc3339(s: &str) -> Option<DateTime<Utc>> {
    Some(DateTime::parse_from_rfc3339(s).unwrap().to_utc())
}

fn as_datetime(r: Option<tuitools::pages::unixtime::DateTimeWithResolution>) -> Option<DateTime<Utc>> {
    r.map(|d| DateTime::from_timestamp(d.secs, d.nanos).unwrap())
}

#[test]
fn test_to_timestamp() {
    assert_eq!(
        as_datetime(to_timestamp(1_634_567_890)),
        parse_from_rfc3339("2021-10-18T14:38:10Z")
    );
    assert_eq!(
        as_datetime(to_timestamp(1_634_567_890_123)),
        parse_from_rfc3339("2021-10-18T14:38:10.123Z")
    );
    assert_eq!(
        as_datetime(to_timestamp(1_634_567_890_123_456)),
        parse_from_rfc3339("2021-10-18T14:38:10.123456Z")
    );
    assert_eq!(
        as_datetime(to_timestamp(1_634_567_890_123_456_789)),
        parse_from_rfc3339("2021-10-18T14:38:10.123456789Z")
    );
    assert_eq!(
        as_datetime(to_timestamp(1_634_567)),
        parse_from_rfc3339("1970-01-19T22:02:47.000Z")
    );
    assert_eq!(as_datetime(to_timestamp(1_634_567_890_123_456_789_000)), None);
}

#[test]
fn test_is_valid_datetime_format() {
    assert!(is_valid_datetime_format("%Y-%m-%dT%H:%M:%S%.f%:z"));
    assert!(is_valid_datetime_format("%Y-%m-%d"));
    assert!(!is_valid_datetime_format("%Y-%m-%dT%H:%M:%S%.f%:z%"));
    assert!(!is_valid_datetime_format("%"));
}

#[test]
fn to_timestamp_resolutions() {
    assert!(matches!(to_timestamp(10).unwrap().resolution, Resolution::Second));
    assert!(matches!(to_timestamp(1_000_000_000_000).unwrap().resolution, Resolution::Milli));
    assert!(matches!(to_timestamp(1_000_000_000_000_000).unwrap().resolution, Resolution::Micro));
    assert!(matches!(
        to_timestamp(1_000_000_000_000_000_000).unwrap().resolution,
        Resolution::Nano
    ));
}

#[test]
fn parse_as_unix_timestamp_accepts_digits_only() {
    assert!(parse_as_unix_timestamp("1634567890").is_some());
    assert!(parse_as_unix_timestamp("ten").is_none());
    assert!(parse_as_unix_timestamp("").is_none());
}

fn type_into(page: &mut UnixTimePage, text: &str) {
    page.update(UnixTimeMsg::EditStart);
    for c in text.chars() {
        page.update(UnixTimeMsg::EditKeyEvent(KeyInput::Char(c)));
    }
    page.update(UnixTimeMsg::EditEnd);
}

#[test]
fn page_formats_timestamp_in_utc() {
    let mut page = UnixTimePage::new(true);
    type_into(&mut page, "1634567890");
    assert_eq!(page.cur.output, "2021-10-18T14:38:10+00:00");
    assert!(matches!(&page.cur.input_status, Status::Info(s) if s == "valid unix timestamp (Second)"));
    assert!(matches!(page.cur.output_format_status, Status::Empty));
}

#[test]
fn page_converts_datetime_to_timestamp() {
    let mut page = UnixTimePage::new(true);
    type_into(&mut page, "2021-10-18T14:38:10Z");
    assert_eq!(page.cur.output, "1634567890");
    assert!(matches!(&page.cur.input_status, Status::Info(s) if s == "valid datetime"));
}

#[test]
fn page_reports_invalid_input() {
    let mut page = UnixTimePage::new(true);
    type_into(&mut page, "not a time");
    assert_eq!(page.cur.output, "");
    assert!(matches!(&page.cur.input_status, Status::Warn(s) if s == "invalid input"));
}

#[test]
fn page_reports_invalid_format() {
    let mut page = UnixTimePage::new(true);
    // move the cursor to the output format field and break the format
    page.update(UnixTimeMsg::SelectPrevItem);
    type_into(&mut page, "%");
    // now enter a valid timestamp
    page.update(UnixTimeMsg::SelectNextItem);
    type_into(&mut page, "1634567890");
    assert_eq!(page.cur.output, "");
    assert!(matches!(&page.cur.output_format_status, Status::Warn(s) if s == "invalid format"));
}

#[test]
fn status_text_accessor() {
    assert_eq!(Status::Empty.str(), "");
    assert_eq!(Status::Info("ok".to_string()).str(), "ok");
    assert_eq!(Status::Warn("no".to_string()).str(), "no");
}

#[test]
fn millisecond_output_keeps_fraction() {
    let mut page = UnixTimePage::new(true);
    type_into(&mut page, "1634567890123");
    assert_eq!(page.cur.output, "2021-10-18T14:38:10.123+00:00");
    assert!(matches!(&page.cur.input_status, Status::Info(s) if s == "valid unix timestamp (Milli)"));
}
