use collab::headers::{CloudflareIpCountryHeader, InvalidHeader, SystemIdHeader};

#[test]
fn headers_have_their_names() {
    assert_eq!(CloudflareIpCountryHeader::name(), "cf-ipcountry");
    assert_eq!(SystemIdHeader::name(), "x-zed-system-id");
}

#[test]
fn the_first_value_counts() {
    let country = CloudflareIpCountryHeader::decode(&[b"SE".to_vec(), b"DE".to_vec()]);
    assert_eq!(country.ok().map(|header| header.to_string()), Some(String::from("SE")));
    let system = SystemIdHeader::decode(&[b"a b\tc~".to_vec(), vec![0xff]]);
    assert_eq!(system.ok().map(|header| header.to_string()), Some(String::from("a b\tc~")));
}

#[test]
fn an_empty_value_is_text() {
    let country = CloudflareIpCountryHeader::decode(&[vec![]]);
    assert_eq!(country.ok().map(|header| header.to_string()), Some(String::new()));
}

#[test]
fn a_missing_header_is_invalid() {
    assert_eq!(CloudflareIpCountryHeader::decode(&[]).err(), Some(InvalidHeader));
    assert_eq!(SystemIdHeader::decode(&[]).err(), Some(InvalidHeader));
}

#[test]
fn a_value_that_is_not_text_is_invalid() {
    for byte in 0..=255u8 {
        let text = (32..127).contains(&byte) || byte == 9;
        let value = vec![b'x', byte];
        assert_eq!(CloudflareIpCountryHeader::decode(&[value.clone()]).is_ok(), text);
        assert_eq!(SystemIdHeader::decode(&[value, b"ok".to_vec()]).is_ok(), text);
    }
}
