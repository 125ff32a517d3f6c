use collab::clock::{Timestamp, parse_or_now, read_or};

#[test]
fn a_time_that_was_read_goes_before_the_present() {
    assert_eq!(read_or(Some((-5, 7)), (1, 2)), Timestamp { seconds: -5, nanos: 7 });
    assert_eq!(read_or(None, (1, 2)), Timestamp { seconds: 1, nanos: 2 });
}

#[test]
fn times_are_read_in_the_notation_of_rfc_3339() {
    assert_eq!(parse_or_now("1970-01-01T00:00:01.5Z"), Timestamp { seconds: 1, nanos: 500_000_000 });
    assert_eq!(parse_or_now("2015-02-18T23:16:09+01:00").seconds, 1424297769);
}

#[test]
fn the_present_stands_in_for_a_time_that_cannot_be_read() {
    let before = chrono::Utc::now().timestamp();
    let time = parse_or_now("soon");
    let after = chrono::Utc::now().timestamp();
    assert!(before <= time.seconds && time.seconds <= after);
    assert!(time.nanos < 1_000_000_000);
}
