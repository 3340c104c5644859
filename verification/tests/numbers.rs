use stats_parser::fmt::fmt_time;
use stats_parser::handshake::fresh_session_id;
use stats_parser::num::{format_u64, parse_i32, parse_u16, parse_usize};

#[test]
fn parse_usize_plain() {
    assert_eq!(parse_usize("0"), Some(0));
    assert_eq!(parse_usize("3"), Some(3));
    assert_eq!(parse_usize("007"), Some(7));
    assert_eq!(parse_usize("18446744073709551615"), Some(usize::MAX));
}

#[test]
fn parse_usize_accepts_leading_plus() {
    assert_eq!(parse_usize("+25"), Some(25));
}

#[test]
fn parse_usize_rejects_junk() {
    assert_eq!(parse_usize(""), None);
    assert_eq!(parse_usize("+"), None);
    assert_eq!(parse_usize("-3"), None);
    assert_eq!(parse_usize("1 2"), None);
    assert_eq!(parse_usize("many"), None);
    assert_eq!(parse_usize("12x"), None);
    assert_eq!(parse_usize("18446744073709551616"), None);
}

#[test]
fn parse_u16_range() {
    assert_eq!(parse_u16("25565"), Some(25565));
    assert_eq!(parse_u16("65535"), Some(65535));
    assert_eq!(parse_u16("65536"), None);
}

#[test]
fn parse_i32_signs_and_range() {
    assert_eq!(parse_i32("0"), Some(0));
    assert_eq!(parse_i32("9513307"), Some(9513307));
    assert_eq!(parse_i32("+17"), Some(17));
    assert_eq!(parse_i32("-17"), Some(-17));
    assert_eq!(parse_i32("2147483647"), Some(i32::MAX));
    assert_eq!(parse_i32("2147483648"), None);
    assert_eq!(parse_i32("-2147483648"), Some(i32::MIN));
    assert_eq!(parse_i32("-2147483649"), None);
    assert_eq!(parse_i32("-"), None);
    assert_eq!(parse_i32("1.5"), None);
}

#[test]
fn format_u64_exact() {
    assert_eq!(format_u64(0), "0");
    assert_eq!(format_u64(7), "7");
    assert_eq!(format_u64(1234567890), "1234567890");
    assert_eq!(format_u64(u64::MAX), "18446744073709551615");
}

#[test]
fn format_then_parse_is_identity() {
    for n in [0usize, 1, 9, 10, 99, 100, 25565, 4294967295] {
        assert_eq!(parse_usize(&format_u64(n as u64)), Some(n));
    }
}

#[test]
fn fmt_time_formats_ticks() {
    assert_eq!(fmt_time(0), "00:00:00");
    assert_eq!(fmt_time(19), "00:00:00");
    assert_eq!(fmt_time(20), "00:00:01");
    assert_eq!(fmt_time(20 * 3661), "01:01:01");
    assert_eq!(fmt_time(20 * (2 * 3600 + 34 * 60 + 56)), "02:34:56");
}

#[test]
fn fmt_time_keeps_long_hours() {
    assert_eq!(fmt_time(20 * 360000), "100:00:00");
}

#[test]
fn session_ids_have_masked_nibbles() {
    for _ in 0..64 {
        let id = fresh_session_id();
        assert!(id >= 0);
        assert_eq!(id as u32 & 0xf0f0_f0f0, 0);
        for byte in id.to_be_bytes() {
            assert!(byte & 0xf0 == 0);
        }
    }
}
