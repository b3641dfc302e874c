use relay_core::ports::{encode_port_message, is_done_sentinel, parse_port_message};

#[test]
fn encode_ports_is_comma_separated_decimal() {
    assert_eq!(encode_port_message(80, 443), b"80,443".to_vec());
    assert_eq!(encode_port_message(0, 65535), b"0,65535".to_vec());
    assert_eq!(encode_port_message(19132, 25565), b"19132,25565".to_vec());
}

#[test]
fn parse_round_trips_encoded_ports() {
    assert_eq!(parse_port_message(&encode_port_message(80, 443)), Some((80, 443)));
    assert_eq!(parse_port_message(&encode_port_message(0, 0)), Some((0, 0)));
    assert_eq!(
        parse_port_message(&encode_port_message(65535, 1)),
        Some((65535, 1))
    );
}

#[test]
fn parse_accepts_leading_zeros() {
    assert_eq!(parse_port_message(b"080,0443"), Some((80, 443)));
}

#[test]
fn parse_rejects_malformed_messages() {
    assert_eq!(parse_port_message(b""), None);
    assert_eq!(parse_port_message(b","), None);
    assert_eq!(parse_port_message(b"80"), None);
    assert_eq!(parse_port_message(b"80,"), None);
    assert_eq!(parse_port_message(b",443"), None);
    assert_eq!(parse_port_message(b"80,443,1"), None);
    assert_eq!(parse_port_message(b"8a,443"), None);
    assert_eq!(parse_port_message(b"80, 443"), None);
}

#[test]
fn parse_rejects_values_over_port_range() {
    assert_eq!(parse_port_message(b"65536,1"), None);
    assert_eq!(parse_port_message(b"1,65536"), None);
    assert_eq!(parse_port_message(b"99999999999999999999,1"), None);
}

#[test]
fn done_sentinel_is_recognized() {
    assert!(is_done_sentinel(b"goodjobguy"));
    assert!(!is_done_sentinel(b"goodjobgu"));
    assert!(!is_done_sentinel(b"goodjobguys"));
    assert!(!is_done_sentinel(b"goodjobgay"));
    assert!(!is_done_sentinel(b""));
}
