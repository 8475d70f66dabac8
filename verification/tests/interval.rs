use minerva::error::Error;
use minerva::humantime_text::duration_text_is_bounded;
use minerva::interval::{checked_parse_interval, interval_can_be_read_safely, parse_interval};
use minerva::time::Duration;

#[test]
fn test_parse_interval() {
    let dur = parse_interval("00:01:00").ok().unwrap();
    assert!(dur.same_as(&Duration::new(60, 0)));

    let dur = parse_interval("2 months 29 days").ok().unwrap();
    assert!(dur.same_as(&Duration::new(7765632, 0)));

    let dur = parse_interval("2 months 29 days 00:01:00").ok().unwrap();
    assert!(dur.same_as(&Duration::new(7765692, 0)));
}

#[test]
fn parse_interval_mons() {
    let dur = parse_interval("1 mons").ok().unwrap();
    assert_eq!(dur.as_secs(), 2630016);
}

#[test]
fn parse_interval_refuses_text() {
    match parse_interval("soon") {
        Err(Error::Runtime(e)) => assert!(e.msg.starts_with("Could not parse 'soon' as interval: ")),
        _ => panic!("expected a runtime error"),
    }
}

#[test]
fn checked_parse_interval_refuses_huge_spans() {
    assert!(checked_parse_interval("18446744073709551615s 1000000000ns").is_none());
    assert!(!interval_can_be_read_safely("584542046090y"));
    assert!(interval_can_be_read_safely("2 months 29 days 00:01:00"));
    match checked_parse_interval("1 mons") {
        Some(Ok(d)) => assert_eq!(d.as_secs(), 2630016),
        _ => panic!("expected a span"),
    }
    assert!(duration_text_is_bounded("99999999999y"));
    assert!(!duration_text_is_bounded("999999999999y"));
    assert!(!duration_text_is_bounded("99999 99999 99 s"));
}
