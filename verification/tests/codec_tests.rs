use sysfs_attrs::codec::{
    format_bool, parse_bool, parse_percent, parse_selected, parse_u64_list, split_str,
};
use sysfs_attrs::num::{format_i64, format_u64, parse_i64, parse_u64};

#[test]
fn parse_u64_accepts_plain_numbers() {
    assert_eq!(parse_u64("0"), Some(0));
    assert_eq!(parse_u64("42"), Some(42));
    assert_eq!(parse_u64("1024"), Some(1024));
    assert_eq!(parse_u64("0042"), Some(42));
    assert_eq!(parse_u64("18446744073709551615"), Some(u64::MAX));
}

#[test]
fn parse_u64_rejects_bad_text() {
    assert_eq!(parse_u64(""), None);
    assert_eq!(parse_u64(" 42"), None);
    assert_eq!(parse_u64("42 "), None);
    assert_eq!(parse_u64("4x2"), None);
    assert_eq!(parse_u64("-1"), None);
    assert_eq!(parse_u64("18446744073709551616"), None);
    assert_eq!(parse_u64("99999999999999999999999"), None);
}

#[test]
fn parse_i64_accepts_signed_numbers() {
    assert_eq!(parse_i64("0"), Some(0));
    assert_eq!(parse_i64("-0"), Some(0));
    assert_eq!(parse_i64("-1"), Some(-1));
    assert_eq!(parse_i64("9223372036854775807"), Some(i64::MAX));
    assert_eq!(parse_i64("-9223372036854775808"), Some(i64::MIN));
}

#[test]
fn parse_i64_rejects_bad_text() {
    assert_eq!(parse_i64(""), None);
    assert_eq!(parse_i64("-"), None);
    assert_eq!(parse_i64("--1"), None);
    assert_eq!(parse_i64("9223372036854775808"), None);
    assert_eq!(parse_i64("-9223372036854775809"), None);
}

#[test]
fn format_u64_writes_minimal_digits() {
    assert_eq!(format_u64(0), "0");
    assert_eq!(format_u64(7), "7");
    assert_eq!(format_u64(1024), "1024");
    assert_eq!(format_u64(u64::MAX), "18446744073709551615");
}

#[test]
fn format_i64_writes_sign_and_digits() {
    assert_eq!(format_i64(0), "0");
    assert_eq!(format_i64(-1), "-1");
    assert_eq!(format_i64(2800000), "2800000");
    assert_eq!(format_i64(i64::MIN), "-9223372036854775808");
}

#[test]
fn unsigned_round_trip_on_samples() {
    for v in [0u64, 1, 9, 10, 99, 100, 4_200_000, u64::MAX] {
        assert_eq!(parse_u64(&format_u64(v)), Some(v));
    }
}

#[test]
fn signed_round_trip_on_samples() {
    for v in [i64::MIN, -4_200_000, -1, 0, 1, 4_200_000, i64::MAX] {
        assert_eq!(parse_i64(&format_i64(v)), Some(v));
    }
}

#[test]
fn boolean_codec_maps_literals() {
    assert_eq!(parse_bool("1"), Some(true));
    assert_eq!(parse_bool("0"), Some(false));
    assert_eq!(parse_bool("2"), None);
    assert_eq!(parse_bool("true"), None);
    assert_eq!(parse_bool(""), None);
    assert_eq!(format_bool(true), "1");
    assert_eq!(format_bool(false), "0");
    assert_eq!(parse_bool(format_bool(true)), Some(true));
    assert_eq!(parse_bool(format_bool(false)), Some(false));
}

#[test]
fn percentage_decodes_to_hundredths() {
    // "42" stores 42 hundredths: the logical value 0.42.
    let hundredths = parse_percent("42").unwrap();
    assert_eq!(hundredths, 42);
    let logical = hundredths as f32 / 100.0;
    assert_eq!(logical, 0.42);
}

#[test]
fn percentage_encoding_rounds_logical_values() {
    // Encoding logical 0.426 rounds to 43 hundredths, written "43".
    let logical = 0.426f32;
    let hundredths = (logical * 100.0).round() as u8;
    assert_eq!(format_u64(hundredths as u64), "43");
}

#[test]
fn percentage_rejects_out_of_range_and_bad_text() {
    assert_eq!(parse_percent("100"), Some(100));
    assert_eq!(parse_percent("0"), Some(0));
    assert_eq!(parse_percent("101"), None);
    assert_eq!(parse_percent("-1"), None);
    assert_eq!(parse_percent("4.2"), None);
}

#[test]
fn selected_value_is_taken_from_brackets() {
    assert_eq!(parse_selected("a [b] c"), Some("b"));
    assert_eq!(parse_selected("[auto] inhibit-charge"), Some("auto"));
    assert_eq!(parse_selected("[]"), Some(""));
    assert_eq!(parse_selected("no brackets"), None);
    assert_eq!(parse_selected("only [open"), None);
    assert_eq!(parse_selected("only close]"), None);
    assert_eq!(parse_selected("] reversed ["), None);
}

#[test]
fn list_decode_splits_on_single_spaces() {
    // A numeric list and a text list, as the declared kind directs.
    assert_eq!(parse_u64_list("0 1 2 3"), Some(vec![0, 1, 2, 3]));
    assert_eq!(split_str("ondemand performance", ' '), vec!["ondemand", "performance"]);
}

#[test]
fn list_decode_keeps_empty_tokens() {
    assert_eq!(split_str("", ' '), vec![""]);
    assert_eq!(split_str("a  b", ' '), vec!["a", "", "b"]);
    assert_eq!(split_str(" a", ' '), vec!["", "a"]);
    assert_eq!(parse_u64_list(""), None);
    assert_eq!(parse_u64_list("1  2"), None);
    assert_eq!(parse_u64_list("1 x"), None);
}
