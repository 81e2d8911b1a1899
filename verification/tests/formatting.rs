use debugger_core::fmtnum::{
    dec_u64, format_bytes, hex_fixed_lower, hex_fixed_upper, hex_lower, hex_upper, parse_hex_u64,
};

#[test]
fn decimal_rendering() {
    assert_eq!(dec_u64(0), "0");
    assert_eq!(dec_u64(7), "7");
    assert_eq!(dec_u64(1000), "1000");
    assert_eq!(dec_u64(u64::MAX), "18446744073709551615");
}

#[test]
fn hex_rendering() {
    assert_eq!(hex_upper(0), "0");
    assert_eq!(hex_upper(0x400000), "400000");
    assert_eq!(hex_upper(0xDEADBEEF), "DEADBEEF");
    assert_eq!(hex_lower(0xDEADBEEF), "deadbeef");
    assert_eq!(hex_fixed_lower(0x401000, 16), "0000000000401000");
    assert_eq!(hex_fixed_upper(0x7FFF0000, 16), "000000007FFF0000");
    assert_eq!(hex_fixed_lower(0, 8), "00000000");
}

#[test]
fn parse_hex_accepts_prefix_and_both_cases() {
    assert_eq!(parse_hex_u64("0x401000"), Some(0x401000));
    assert_eq!(parse_hex_u64("401000"), Some(0x401000));
    assert_eq!(parse_hex_u64("0xDEADbeef"), Some(0xDEADBEEF));
    assert_eq!(parse_hex_u64("0xffffffffffffffff"), Some(u64::MAX));
    assert_eq!(parse_hex_u64("0x0000000000401000"), Some(0x401000));
}

#[test]
fn parse_hex_rejects_junk() {
    assert_eq!(parse_hex_u64(""), None);
    assert_eq!(parse_hex_u64("0x"), None);
    assert_eq!(parse_hex_u64("0xg1"), None);
    assert_eq!(parse_hex_u64("12 34"), None);
    // One digit past sixty-four bits.
    assert_eq!(parse_hex_u64("0x10000000000000000"), None);
}

#[test]
fn address_round_trip() {
    for a in [0u64, 1, 0x400000, 0x7FFF0000, u64::MAX, 0x0123_4567_89AB_CDEF] {
        let rendered = format!("0x{}", hex_fixed_lower(a, 16));
        assert_eq!(rendered.len(), 18);
        assert_eq!(parse_hex_u64(&rendered), Some(a));
        let minimal = hex_upper(a);
        assert_eq!(parse_hex_u64(&minimal), Some(a));
    }
}

#[test]
fn format_bytes_picks_units() {
    assert_eq!(format_bytes(0), "0 B");
    assert_eq!(format_bytes(512), "512 B");
    assert_eq!(format_bytes(1023), "1023 B");
    assert_eq!(format_bytes(1024), "1.0 KB");
    assert_eq!(format_bytes(1536), "1.5 KB");
    assert_eq!(format_bytes(2 * 1024 * 1024), "2.0 MB");
    assert_eq!(format_bytes(3 * 1024 * 1024 * 1024 / 2), "1.5 GB");
    assert_eq!(format_bytes(0x200000), "2.0 MB");
}
