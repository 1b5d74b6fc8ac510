use network_tool::text::{ipv4_string, octet_string};

#[test]
fn octet_numerals_have_no_leading_zero() {
    assert_eq!(octet_string(0), "0");
    assert_eq!(octet_string(7), "7");
    assert_eq!(octet_string(45), "45");
    assert_eq!(octet_string(100), "100");
    assert_eq!(octet_string(255), "255");
}

#[test]
fn dotted_decimal_formats_all_octets() {
    assert_eq!(ipv4_string(192, 168, 0, 1), "192.168.0.1");
    assert_eq!(ipv4_string(8, 8, 8, 8), "8.8.8.8");
    assert_eq!(ipv4_string(255, 255, 255, 255), "255.255.255.255");
    assert_eq!(ipv4_string(10, 0, 200, 30), "10.0.200.30");
}
