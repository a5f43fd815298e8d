use wakeonlan::{hex_digit_value, parse_mac_address, WOLError};

#[test]
fn test_parse_mac_address() {
    let mac_addr = "01:23:45:67:89:AB";
    let mac = parse_mac_address(mac_addr).expect(mac_addr);
    assert_eq!(mac, [0x01, 0x23, 0x45, 0x67, 0x89, 0xAB]);
}

#[test]
fn test_parse_mac_address_zeros() {
    let mac_addr = "00:00:00:00:00:00";
    let mac = parse_mac_address(mac_addr).expect(mac_addr);
    assert_eq!(mac, [0, 0, 0, 0, 0, 0]);
}

#[test]
fn test_parse_mac_address_max() {
    let mac_addr = "FF:FF:FF:FF:FF:FF";
    let mac = parse_mac_address(mac_addr).expect(mac_addr);
    assert_eq!(mac, [0xFF, 0xFF, 0xFF, 0xFF, 0xFF, 0xFF]);
}

#[test]
fn parse_accepts_either_case() {
    assert_eq!(
        parse_mac_address("ab:cd:ef:AB:CD:EF"),
        Ok([0xAB, 0xCD, 0xEF, 0xAB, 0xCD, 0xEF])
    );
    assert_eq!(
        parse_mac_address("0a:Fb:9c:d0:e1:2F"),
        Ok([0x0A, 0xFB, 0x9C, 0xD0, 0xE1, 0x2F])
    );
}

#[test]
fn parse_rejects_wrong_length() {
    assert_eq!(parse_mac_address(""), Err(WOLError::InvalidMACAddress));
    assert_eq!(parse_mac_address("not-a-mac"), Err(WOLError::InvalidMACAddress));
    assert_eq!(parse_mac_address("01:23:45:67:89:A"), Err(WOLError::InvalidMACAddress));
    assert_eq!(parse_mac_address("01:23:45:67:89:ABC"), Err(WOLError::InvalidMACAddress));
    assert_eq!(parse_mac_address("0123456789AB"), Err(WOLError::InvalidMACAddress));
}

#[test]
fn parse_rejects_non_hex_digit() {
    assert_eq!(parse_mac_address("01:23:45:67:89:AG"), Err(WOLError::InvalidMACAddress));
    assert_eq!(parse_mac_address("g1:23:45:67:89:AB"), Err(WOLError::InvalidMACAddress));
    assert_eq!(parse_mac_address("01:23: 5:67:89:AB"), Err(WOLError::InvalidMACAddress));
    assert_eq!(parse_mac_address("+1:23:45:67:89:AB"), Err(WOLError::InvalidMACAddress));
}

#[test]
fn parse_rejects_wrong_delimiter() {
    assert_eq!(parse_mac_address("01-23-45-67-89-AB"), Err(WOLError::InvalidMACAddress));
    assert_eq!(parse_mac_address("01:23:45:67:89-AB"), Err(WOLError::InvalidMACAddress));
    assert_eq!(parse_mac_address("012:3:45:67:89:AB"), Err(WOLError::InvalidMACAddress));
}

#[test]
fn parse_rejects_non_ascii() {
    // Seventeen characters, one of them outside ASCII.
    assert_eq!(parse_mac_address("01:23:45:67:89:Aé"), Err(WOLError::InvalidMACAddress));
    // Seventeen bytes, fewer characters.
    assert_eq!(parse_mac_address("01:23:45:67:89é"), Err(WOLError::InvalidMACAddress));
}

#[test]
fn hex_digit_values() {
    assert_eq!(hex_digit_value('0'), Some(0));
    assert_eq!(hex_digit_value('9'), Some(9));
    assert_eq!(hex_digit_value('a'), Some(10));
    assert_eq!(hex_digit_value('F'), Some(15));
    assert_eq!(hex_digit_value('g'), None);
    assert_eq!(hex_digit_value(':'), None);
}
