use preview_sync::hex::{parse_hex_u64, u64_to_hex};

#[test]
fn formats_small_values() {
    assert_eq!(u64_to_hex(0), "0");
    assert_eq!(u64_to_hex(9), "9");
    assert_eq!(u64_to_hex(10), "a");
    assert_eq!(u64_to_hex(255), "ff");
    assert_eq!(u64_to_hex(4096), "1000");
}

#[test]
fn formats_the_largest_value() {
    assert_eq!(u64_to_hex(u64::MAX), "ffffffffffffffff");
}

#[test]
fn parses_lowercase_and_uppercase() {
    assert_eq!(parse_hex_u64("ff"), Some(255));
    assert_eq!(parse_hex_u64("FF"), Some(255));
    assert_eq!(parse_hex_u64("DeadBeef"), Some(0xdead_beef));
}

#[test]
fn parses_leading_zeros() {
    assert_eq!(parse_hex_u64("00ff"), Some(255));
    assert_eq!(parse_hex_u64("0000000000000000001"), Some(1));
}

#[test]
fn rejects_empty_and_non_digits() {
    assert_eq!(parse_hex_u64(""), None);
    assert_eq!(parse_hex_u64("xyz"), None);
    assert_eq!(parse_hex_u64("12g4"), None);
    assert_eq!(parse_hex_u64("0x12"), None);
    assert_eq!(parse_hex_u64("-1"), None);
    assert_eq!(parse_hex_u64(" ff"), None);
}

#[test]
fn rejects_values_above_u64_max() {
    assert_eq!(parse_hex_u64("10000000000000000"), None);
    assert_eq!(parse_hex_u64("ffffffffffffffff"), Some(u64::MAX));
    assert_eq!(parse_hex_u64("fffffffffffffffff"), None);
}

#[test]
fn format_then_parse_round_trips() {
    for v in [0u64, 1, 15, 16, 255, 0x1_0000_0000, 0xdead_beef_cafe, u64::MAX] {
        assert_eq!(parse_hex_u64(&u64_to_hex(v)), Some(v));
    }
}
