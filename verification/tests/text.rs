use bounce::text::{decimal, parse_port};

#[test]
fn decimal_matches_display() {
    for n in [0u64, 7, 10, 99, 100, 65535, 1048577, u64::MAX] {
        assert_eq!(decimal(n), n.to_string());
    }
}

#[test]
fn ports_are_read_as_the_standard_library_reads_them() {
    for text in [
        "0", "80", "3000", "65535", "65536", "99999999999999999999", "+80", "+", "++1", "-1", "-0",
        "", " 80", "80 ", "8 0", "00080", "000000000000000000000080", "8o", "1_000", "٣", "é", "+é", "0x50",
    ] {
        assert_eq!(parse_port(text), text.parse::<u16>().ok(), "{text}");
    }
}

#[test]
fn every_port_reads_back() {
    for port in 0..=u16::MAX {
        assert_eq!(parse_port(&decimal(port as u64)), Some(port));
    }
}
