use starknet_rpc::hexnum::{dec_of_u128, format_scaled_fee, parse_hex_u128, parse_hex_u64};
use starknet_rpc::interp::estimate_timestamp;

#[test]
fn hex_u128_basic() {
    assert_eq!(parse_hex_u128("0x64"), Some(100));
    assert_eq!(parse_hex_u128("64"), Some(0x64));
    assert_eq!(parse_hex_u128("0xff"), Some(255));
    assert_eq!(parse_hex_u128("0xFF"), Some(255));
    assert_eq!(parse_hex_u128("0x0"), Some(0));
}

#[test]
fn hex_u128_rejects_malformed() {
    assert_eq!(parse_hex_u128(""), None);
    assert_eq!(parse_hex_u128("0x"), None);
    assert_eq!(parse_hex_u128("0xzz"), None);
    assert_eq!(parse_hex_u128("0x12g4"), None);
    assert_eq!(parse_hex_u128("12 34"), None);
}

#[test]
fn hex_u128_strips_repeated_prefixes() {
    // trim_start_matches("0x") removes every leading repetition
    assert_eq!(parse_hex_u128("0x0x10"), Some(0x10));
}

#[test]
fn hex_u128_overflow() {
    // 32 hex digits of f: the u128 maximum
    assert_eq!(
        parse_hex_u128("0xffffffffffffffffffffffffffffffff"),
        Some(u128::MAX)
    );
    // 33 digits: too wide
    assert_eq!(parse_hex_u128("0x1ffffffffffffffffffffffffffffffff"), None);
}

#[test]
fn hex_u64_range() {
    assert_eq!(parse_hex_u64("0xffffffffffffffff"), Some(u64::MAX));
    assert_eq!(parse_hex_u64("0x10000000000000000"), None);
    assert_eq!(parse_hex_u64("0xc8"), Some(200));
}

#[test]
fn decimal_rendering() {
    assert_eq!(dec_of_u128(0), "0");
    assert_eq!(dec_of_u128(7), "7");
    assert_eq!(dec_of_u128(100), "100");
    assert_eq!(dec_of_u128(1234567890123456789), "1234567890123456789");
    assert_eq!(dec_of_u128(u128::MAX), "340282366920938463463374607431768211455");
}

#[test]
fn scaled_fee_formatting() {
    // 1.5 tokens with four fractional digits
    assert_eq!(format_scaled_fee(1_500_000_000_000_000_000, 4), "1.5000");
    // truncation, not rounding
    assert_eq!(format_scaled_fee(1_234_567_890_123_456_789, 6), "1.234567");
    assert_eq!(format_scaled_fee(0, 4), "0.0000");
    assert_eq!(format_scaled_fee(999_999_999_999_999_999, 4), "0.9999");
    assert_eq!(format_scaled_fee(4_000_000_000_000_000_000, 4), "4.0000");
    assert_eq!(format_scaled_fee(2_000_000_000_000_000_000, 6), "2.000000");
}

#[test]
fn interpolation_formula() {
    // to_ts - (block_diff * time_diff) / total_diff, integer division
    assert_eq!(estimate_timestamp(100, 200, 1000, 2000, 150), 1500);
    assert_eq!(estimate_timestamp(100, 200, 1000, 2000, 200), 2000);
    assert_eq!(estimate_timestamp(100, 200, 1000, 2000, 100), 1000);
    // empty window: the window-end timestamp
    assert_eq!(estimate_timestamp(200, 200, 1000, 2000, 150), 2000);
    // below the window: clamped block_diff keeps the estimate in range
    assert_eq!(estimate_timestamp(100, 200, 1000, 2000, 0), 0);
}

#[test]
fn interpolation_is_monotonic_on_samples() {
    let mut last = 0u64;
    for b in 100..=200u64 {
        let e = estimate_timestamp(100, 200, 1000, 2000, b);
        assert!(e >= last);
        last = e;
    }
}
