use collab::text::{append_decimal, append_signed_decimal, parse_u16, split_once, strip_prefix};

fn decimal(n: u64) -> String {
    let mut out = String::new();
    append_decimal(&mut out, n);
    out
}

fn signed(i: i32) -> String {
    let mut out = String::from("id ");
    append_signed_decimal(&mut out, i);
    out
}

#[test]
fn numbers_are_written_in_decimal() {
    assert_eq!(decimal(0), "0");
    assert_eq!(decimal(9), "9");
    assert_eq!(decimal(10), "10");
    assert_eq!(decimal(65535), "65535");
    assert_eq!(decimal(u64::MAX), "18446744073709551615");
    assert_eq!(signed(7), "id 7");
    assert_eq!(signed(-42), "id -42");
    assert_eq!(signed(i32::MIN), "id -2147483648");
}

#[test]
fn ports_are_read_as_the_standard_library_reads_them() {
    let cases = [
        "", "0", "80", "+80", "+", "-", "-0", "++1", "65535", "65536", "000065535", "99999999999999999999",
        "8080 ", " 8080", "80a", "8_0", "٣", "+0000000000000000001", "1+", "6553x6",
    ];
    for case in cases {
        assert_eq!(parse_u16(case), case.parse::<u16>().ok(), "{case:?}");
    }
}

#[test]
fn every_port_is_read_back() {
    for port in 0..=u16::MAX {
        assert_eq!(parse_u16(&decimal(port as u64)), Some(port));
    }
}

#[test]
fn prefixes_are_stripped() {
    assert_eq!(strip_prefix("token abc", "token "), Some("abc"));
    assert_eq!(strip_prefix("token ", "token "), Some(""));
    assert_eq!(strip_prefix("token", "token "), None);
    assert_eq!(strip_prefix("Token abc", "token "), None);
    assert_eq!(strip_prefix("äöü", "äö"), Some("ü"));
    assert_eq!(strip_prefix("abc", ""), Some("abc"));
}

#[test]
fn text_is_split_at_the_first_separator() {
    assert_eq!(split_once("80:a:b", ':'), Some(("80", "a:b")));
    assert_eq!(split_once(":", ':'), Some(("", "")));
    assert_eq!(split_once("é:ü", ':'), Some(("é", "ü")));
    assert_eq!(split_once("80", ':'), None);
    assert_eq!(split_once("", ':'), None);
}
