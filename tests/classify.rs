use netdiag::classify::{analyze_packet, classify_direction, display_hex_of, CAPTURE_PORT};

fn frame_with_ports(src: [u8; 2], dst: [u8; 2], extra: &[u8]) -> Vec<u8> {
    let mut f = vec![0u8; 34];
    f.extend_from_slice(&src);
    f.extend_from_slice(&dst);
    f.extend_from_slice(extra);
    f
}

fn decode(hex: &str) -> Vec<u8> {
    (0..hex.len() / 2)
        .map(|i| u8::from_str_radix(&hex[2 * i..2 * i + 2], 16).unwrap())
        .collect()
}

#[test]
fn short_frames_are_unknown() {
    for len in 0..38 {
        let f = vec![0x3Eu8; len];
        assert_eq!(analyze_packet(&f, 1).direction, "unknown");
    }
    let mut f = vec![0u8; 37];
    f[34] = 0x3E;
    f[35] = 0x80;
    assert_eq!(classify_direction(&f), "unknown");
}

#[test]
fn source_port_gives_out() {
    let f = frame_with_ports([0x3E, 0x80], [0x00, 0x50], &[1, 2, 3]);
    assert_eq!(analyze_packet(&f, 1).direction, "out");
}

#[test]
fn destination_port_gives_in() {
    let f = frame_with_ports([0x00, 0x50], [0x3E, 0x80], &[]);
    assert_eq!(analyze_packet(&f, 2).direction, "in");
}

#[test]
fn both_ports_give_out() {
    let f = frame_with_ports([0x3E, 0x80], [0x3E, 0x80], &[]);
    assert_eq!(classify_direction(&f), "out");
}

#[test]
fn other_ports_are_unknown() {
    let f = frame_with_ports([0x00, 0x50], [0x01, 0xBB], &[9; 20]);
    assert_eq!(classify_direction(&f), "unknown");
    let g = frame_with_ports([0x80, 0x3E], [0x80, 0x3E], &[]);
    assert_eq!(classify_direction(&g), "unknown");
}

#[test]
fn capture_port_is_sixteen_thousand() {
    assert_eq!(CAPTURE_PORT, 16000);
    assert_eq!(u16::from_be_bytes([0x3E, 0x80]), CAPTURE_PORT);
}

#[test]
fn empty_frame() {
    let info = analyze_packet(&[], 0);
    assert_eq!(info.direction, "unknown");
    assert_eq!(info.hex_data, "");
}

#[test]
fn hex_is_lowercase_two_digits_per_byte() {
    assert_eq!(display_hex_of(&[0x00, 0x0f, 0xab, 0xff, 0x10]), "000fabff10");
}

#[test]
fn hex_of_fifty_bytes_is_not_truncated() {
    let f: Vec<u8> = (0..50).collect();
    let h = display_hex_of(&f);
    assert_eq!(h.len(), 100);
    assert!(!h.ends_with("..."));
    assert_eq!(decode(&h), f);
}

#[test]
fn hex_of_long_frame_is_truncated() {
    let f: Vec<u8> = (0..=255).collect();
    let full: String = f.iter().map(|b| format!("{:02x}", b)).collect();
    let h = analyze_packet(&f, 7).hex_data;
    assert_eq!(h.len(), 103);
    assert_eq!(h, format!("{}...", &full[..100]));
    assert!(h[..100].chars().all(|c| c.is_ascii_digit() || ('a'..='f').contains(&c)));
}

#[test]
fn hex_of_fifty_one_bytes_is_truncated() {
    let f = vec![0xA5u8; 51];
    let h = display_hex_of(&f);
    assert_eq!(h, format!("{}...", "a5".repeat(50)));
}

#[test]
fn hex_round_trip() {
    let f = frame_with_ports([0x3E, 0x80], [0x00, 0x50], &[0xde, 0xad, 0xbe, 0xef]);
    let h = analyze_packet(&f, 3).hex_data;
    assert_eq!(decode(&h), f);
}
