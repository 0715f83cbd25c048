use libwifi::frame::components::{MacAddress, MacParseError};

#[test]
fn mac_test_broadcast() {
    let mac = MacAddress([255, 255, 255, 255, 255, 255]);
    assert!(mac.is_broadcast())
}

#[test]
fn mac_test_format() {
    let mac = MacAddress([12, 157, 146, 197, 170, 127]);
    assert_eq!("0c:9d:92:c5:aa:7f", mac.to_string())
}

#[test]
fn mac_address_test_broadcast() {
    let mac = MacAddress([255, 255, 255, 255, 255, 255]);
    assert!(mac.is_broadcast())
}

#[test]
fn mac_address_test_format() {
    let mac = MacAddress([12, 157, 146, 197, 170, 127]);
    assert_eq!("0c:9d:92:c5:aa:7f", mac.to_string())
}

#[test]
fn mac_is_not_broadcast_with_one_other_byte() {
    assert!(!MacAddress([255, 255, 255, 255, 255, 254]).is_broadcast());
    assert!(!MacAddress([0, 255, 255, 255, 255, 255]).is_broadcast());
}

#[test]
fn mac_ipv6_ranges() {
    assert!(MacAddress([51, 51, 0, 0, 0, 0]).is_ipv6_neighborhood_discovery());
    assert!(!MacAddress([51, 51, 0, 0, 0, 1]).is_ipv6_neighborhood_discovery());
    assert!(MacAddress([51, 51, 255, 75, 207, 58]).is_ipv6_multicast());
    assert!(!MacAddress([51, 52, 0, 0, 0, 0]).is_ipv6_multicast());
}

#[test]
fn mac_text_round_trip() {
    let addresses = [
        MacAddress([0, 0, 0, 0, 0, 0]),
        MacAddress([255, 255, 255, 255, 255, 255]),
        MacAddress([12, 157, 146, 197, 170, 127]),
        MacAddress([0x0a, 0xb0, 0x09, 0x90, 0xf0, 0x0f]),
    ];
    for mac in addresses {
        assert_eq!(MacAddress::parse(&mac.to_string()), Ok(mac));
        assert_eq!(mac.to_string().parse::<MacAddress>(), Ok(mac));
    }
}

#[test]
fn mac_parse_takes_what_a_hexadecimal_number_may_look_like() {
    assert_eq!(
        MacAddress::parse("0C:9D:92:c5:Aa:7F"),
        Ok(MacAddress([12, 157, 146, 197, 170, 127]))
    );
    assert_eq!(MacAddress::parse("1:2:3:4:5:6"), Ok(MacAddress([1, 2, 3, 4, 5, 6])));
    assert_eq!(MacAddress::parse("+1:002:3:4:5:0ff"), Ok(MacAddress([1, 2, 3, 4, 5, 255])));
}

#[test]
fn mac_parse_wrong_number_of_parts() {
    assert_eq!(MacAddress::parse(""), Err(MacParseError::InvalidLength));
    assert_eq!(MacAddress::parse("0c:9d:92:c5:aa"), Err(MacParseError::InvalidLength));
    assert_eq!(MacAddress::parse("0c:9d:92:c5:aa:7f:00"), Err(MacParseError::InvalidLength));
    assert_eq!(MacAddress::parse("zz:9d:92:c5:aa"), Err(MacParseError::InvalidLength));
    assert_eq!(MacAddress::parse("0:1:2:3:4:5:6:7:8:9"), Err(MacParseError::InvalidLength));
}

#[test]
fn mac_parse_invalid_digit() {
    assert_eq!(MacAddress::parse("0c:9d:92:c5:aa:7g"), Err(MacParseError::InvalidDigit));
    assert_eq!(MacAddress::parse("0c:9d:92:c5:aa:"), Err(MacParseError::InvalidDigit));
    assert_eq!(MacAddress::parse(":::::"), Err(MacParseError::InvalidDigit));
    assert_eq!(MacAddress::parse("0c:9d:92:c5:aa:100"), Err(MacParseError::InvalidDigit));
    assert_eq!(MacAddress::parse("0c:9d:92:c5:aa:+"), Err(MacParseError::InvalidDigit));
    assert_eq!(MacAddress::parse("0c:9d:92:c5:aa:-1"), Err(MacParseError::InvalidDigit));
    assert_eq!(MacAddress::parse("0c:9d:92:c5:aa: 1"), Err(MacParseError::InvalidDigit));
    assert_eq!(MacAddress::parse("0c:9d:92:c5:aa:1+"), Err(MacParseError::InvalidDigit));
    assert_eq!(MacAddress::parse("0c:9d:\u{e9}:c5:aa:7f"), Err(MacParseError::InvalidDigit));
}

#[test]
fn mac_encode_gives_the_bytes() {
    assert_eq!(MacAddress([1, 2, 3, 4, 5, 6]).encode(), [1, 2, 3, 4, 5, 6]);
}
