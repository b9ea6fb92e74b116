//! The numbers of the ABI.

use http_wasm_host::abi::{
    as_signed, as_unsigned, decode_ctx_next, encode_count_len, encode_eof_len, encode_ok_len,
    features, severity, HeaderKind, LogLevel, Severity, MODULE,
};

#[test]
fn count_len_roundtrip() {
    let v = encode_count_len(3, 42);
    assert_eq!((v >> 32) as u32, 3);
    assert_eq!(v as u32, 42);
}

#[test]
fn eof_len_sets_high_bit_only_when_eof() {
    assert_eq!(encode_eof_len(false, 10) >> 32, 0);
    assert_eq!(encode_eof_len(true, 10) >> 32, 1);
    assert_eq!(encode_eof_len(true, 10) as u32, 10);
}

#[test]
fn ctx_next_decodes_both_halves() {
    let raw = ((7i64) << 32) | 1;
    assert_eq!(decode_ctx_next(raw), (7, true));
    let raw_stop = (9i64) << 32; // next flag = 0
    assert_eq!(decode_ctx_next(raw_stop), (9, false));
}

#[test]
fn header_kind_decodes_known_values() {
    assert_eq!(HeaderKind::from_i32(0), Some(HeaderKind::Request));
    assert_eq!(HeaderKind::from_i32(1), Some(HeaderKind::Response));
    assert_eq!(HeaderKind::from_i32(99), None);
}

#[test]
fn log_level_debug_is_negative() {
    assert_eq!(LogLevel::from_i32(-1), LogLevel::Debug);
    assert_eq!(LogLevel::from_i32(0), LogLevel::Info);
    assert_eq!(LogLevel::from_i32(2), LogLevel::Error);
}

#[test]
fn header_kind_decodes_trailers_and_rejects_neighbours() {
    assert_eq!(HeaderKind::from_i32(2), Some(HeaderKind::RequestTrailers));
    assert_eq!(HeaderKind::from_i32(3), Some(HeaderKind::ResponseTrailers));
    assert_eq!(HeaderKind::from_i32(4), None);
    assert_eq!(HeaderKind::from_i32(-1), None);
}

#[test]
fn log_level_falls_back_to_info() {
    assert_eq!(LogLevel::from_i32(1), LogLevel::Warn);
    assert_eq!(LogLevel::from_i32(3), LogLevel::Off);
    assert_eq!(LogLevel::from_i32(4), LogLevel::Info);
    assert_eq!(LogLevel::from_i32(-2), LogLevel::Info);
    assert_eq!(LogLevel::from_i32(i32::MIN), LogLevel::Info);
}

#[test]
fn pairs_use_all_64_bits() {
    assert_eq!(encode_count_len(u32::MAX, u32::MAX), -1);
    assert_eq!(encode_count_len(1, 0), 0x1_0000_0000);
    assert_eq!(encode_count_len(0x8000_0000, 0), i64::MIN);
    assert_eq!(encode_ok_len(true, 5), 0x1_0000_0005);
    assert_eq!(encode_ok_len(false, 0), 0);
}

#[test]
fn ctx_next_reads_any_bits() {
    assert_eq!(decode_ctx_next(-1), (u32::MAX, true));
    assert_eq!(decode_ctx_next(i64::MIN), (0x8000_0000, false));
    assert_eq!(decode_ctx_next(2), (0, false));
    assert_eq!(decode_ctx_next(3), (0, true));
}

#[test]
fn signed_and_unsigned_hold_the_same_bits() {
    assert_eq!(as_signed(u32::MAX), -1);
    assert_eq!(as_signed(0x8000_0000), i32::MIN);
    assert_eq!(as_unsigned(-1), u32::MAX);
    assert_eq!(as_unsigned(as_signed(3_000_000_000)), 3_000_000_000);
}

#[test]
fn constants_of_the_abi() {
    assert_eq!(MODULE, "http_handler");
    assert_eq!(
        features::BUFFER_REQUEST | features::BUFFER_RESPONSE | features::TRAILERS,
        7
    );
}

#[test]
fn every_level_but_off_has_a_severity() {
    assert_eq!(severity(LogLevel::Debug), Some(Severity::Debug));
    assert_eq!(severity(LogLevel::Info), Some(Severity::Info));
    assert_eq!(severity(LogLevel::Warn), Some(Severity::Warn));
    assert_eq!(severity(LogLevel::Error), Some(Severity::Error));
    assert_eq!(severity(LogLevel::Off), None);
}
