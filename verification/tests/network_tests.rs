use zed_vision_sync::network::{calculate_network_segment, get_primary_interface, network_info_from, parse_ipv4};
use zed_vision_sync::text::decimal_string;

#[test]
fn decimal_string_formats_numbers() {
    assert_eq!(decimal_string(0), "0");
    assert_eq!(decimal_string(7), "7");
    assert_eq!(decimal_string(10), "10");
    assert_eq!(decimal_string(8765), "8765");
    assert_eq!(decimal_string(u64::MAX as u128), u64::MAX.to_string());
    assert_eq!(decimal_string(u128::MAX), u128::MAX.to_string());
}

#[test]
fn parse_ipv4_accepts_dotted_quads() {
    assert_eq!(parse_ipv4("192.168.1.42"), Some((192, 168, 1, 42)));
    assert_eq!(parse_ipv4("0.0.0.0"), Some((0, 0, 0, 0)));
    assert_eq!(parse_ipv4("255.255.255.255"), Some((255, 255, 255, 255)));
    assert_eq!(parse_ipv4("10.0.100.9"), Some((10, 0, 100, 9)));
}

#[test]
fn parse_ipv4_rejects_other_text() {
    for s in [
        "", "Unknown", "1.2.3", "1.2.3.4.5", "256.1.1.1", "01.2.3.4", "1.2.3.00", "1..2.3",
        " 1.2.3.4", "1.2.3.4 ", "1.2.3.-4", "+1.2.3.4", "1.2.3.4.", ".1.2.3.4", "1234.1.1.1",
        "0001.1.1.1", "1.2.3.a", "1.2.3.٤",
    ] {
        assert_eq!(parse_ipv4(s), None, "{}", s);
    }
}

#[test]
fn ipv4_text_round_trips() {
    for (a, b, c, d) in [(0u8, 0u8, 0u8, 0u8), (1, 20, 255, 3), (192, 168, 0, 1), (9, 99, 100, 250)] {
        let text = format!("{}.{}.{}.{}", a, b, c, d);
        assert_eq!(parse_ipv4(&text), Some((a, b, c, d)));
        assert_eq!(calculate_network_segment(&text), format!("{}.{}.{}.0/24", a, b, c));
    }
}

#[test]
fn network_segment_of_address() {
    assert_eq!(calculate_network_segment("192.168.1.42"), "192.168.1.0/24");
    assert_eq!(calculate_network_segment("10.0.0.5"), "10.0.0.0/24");
}

#[test]
fn network_segment_of_non_address_is_unknown() {
    assert_eq!(calculate_network_segment("Unknown"), "Unknown");
    assert_eq!(calculate_network_segment("::1"), "Unknown");
    assert_eq!(calculate_network_segment("300.1.1.1"), "Unknown");
}

#[test]
fn primary_interface_is_en0() {
    assert_eq!(get_primary_interface(), Some("en0".to_string()));
}

#[test]
fn network_info_without_address() {
    let info = network_info_from(None);
    assert_eq!(info.local_ip, "Unknown");
    assert_eq!(info.network_segment, "Unknown");
    assert_eq!(info.interface_name, "en0");
}

#[test]
fn network_info_with_address() {
    let info = network_info_from(Some("172.16.5.20".to_string()));
    assert_eq!(info.local_ip, "172.16.5.20");
    assert_eq!(info.network_segment, "172.16.5.0/24");
    assert_eq!(info.interface_name, "en0");
}
