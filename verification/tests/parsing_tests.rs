use vmagic::framerate::{format_fps_milli, parse_frame_rate};
use vmagic::strutil::{
    first_line, i64_to_string, parse_decimal_scaled, parse_u64, str_contains, str_eq,
    u64_to_string, u64_to_string_pad2,
};
use vmagic::timefmt::{format_seconds2, format_seconds3, format_time};

#[test]
fn frame_rate_rational_parses_to_milli_fps() {
    // 30000/1001 is 29.97002..., truncated at milli precision
    assert_eq!(parse_frame_rate("30000/1001"), 29_970);
    assert_eq!(parse_frame_rate("60000/1001"), 59_940);
    assert_eq!(parse_frame_rate("25/1"), 25_000);
}

#[test]
fn frame_rate_plain_decimal_parses_to_milli_fps() {
    assert_eq!(parse_frame_rate("30"), 30_000);
    assert_eq!(parse_frame_rate("29.97"), 29_970);
    assert_eq!(parse_frame_rate("23.976"), 23_976);
}

#[test]
fn frame_rate_zero_denominator_yields_zero() {
    assert_eq!(parse_frame_rate("30/0"), 0);
    assert_eq!(parse_frame_rate("30/0.0"), 0);
}

#[test]
fn frame_rate_garbage_yields_zero() {
    assert_eq!(parse_frame_rate(""), 0);
    assert_eq!(parse_frame_rate("abc"), 0);
    assert_eq!(parse_frame_rate("1/2/3"), 0);
    assert_eq!(parse_frame_rate("x/30"), 0);
    assert_eq!(parse_frame_rate("30/x"), 0);
    assert_eq!(parse_frame_rate("."), 0);
}

#[test]
fn decimal_parsing_scales_and_truncates() {
    assert_eq!(parse_decimal_scaled("10.5", 6), Some(10_500_000));
    assert_eq!(parse_decimal_scaled("0.000001", 6), Some(1));
    assert_eq!(parse_decimal_scaled("3", 3), Some(3_000));
    assert_eq!(parse_decimal_scaled(".5", 3), Some(500));
    assert_eq!(parse_decimal_scaled("5.", 3), Some(5_000));
    // digits beyond the scale are truncated, not rounded
    assert_eq!(parse_decimal_scaled("1.2345", 3), Some(1_234));
    assert_eq!(parse_decimal_scaled("", 3), None);
    assert_eq!(parse_decimal_scaled(".", 3), None);
    assert_eq!(parse_decimal_scaled("1.2.3", 3), None);
    assert_eq!(parse_decimal_scaled("-1", 3), None);
}

#[test]
fn integer_parsing_is_exact() {
    assert_eq!(parse_u64("0"), Some(0));
    assert_eq!(parse_u64("18446744073709551615"), Some(u64::MAX));
    assert_eq!(parse_u64("18446744073709551616"), None);
    assert_eq!(parse_u64(""), None);
    assert_eq!(parse_u64("12a"), None);
}

#[test]
fn number_rendering_matches_decimal() {
    assert_eq!(u64_to_string(0), "0");
    assert_eq!(u64_to_string(60), "60");
    assert_eq!(u64_to_string(1234567890), "1234567890");
    assert_eq!(u64_to_string_pad2(7), "07");
    assert_eq!(u64_to_string_pad2(42), "42");
    assert_eq!(i64_to_string(-12), "-12");
    assert_eq!(i64_to_string(12), "12");
    assert_eq!(i64_to_string(i64::MIN), "-9223372036854775808");
}

#[test]
fn fps_rendering_drops_trailing_zeros() {
    assert_eq!(format_fps_milli(60_000), "60");
    assert_eq!(format_fps_milli(29_970), "29.97");
    assert_eq!(format_fps_milli(23_976), "23.976");
    assert_eq!(format_fps_milli(30_500), "30.5");
    assert_eq!(format_fps_milli(0), "0");
}

#[test]
fn time_rendering_is_zero_padded() {
    assert_eq!(format_time(0), "00:00:00.00");
    // one hour, two minutes, five and a half seconds
    assert_eq!(format_time(3_725_500_000), "01:02:05.50");
    assert_eq!(format_time(59_990_000), "00:00:59.99");
}

#[test]
fn seconds_rendering_truncates() {
    assert_eq!(format_seconds2(10_050_000), "10.05");
    assert_eq!(format_seconds2(10_000_000), "10.00");
    assert_eq!(format_seconds2(999_999), "0.99");
    assert_eq!(format_seconds3(50_000), "0.050");
    assert_eq!(format_seconds3(10_123_999), "10.123");
}

#[test]
fn string_search_and_equality() {
    assert!(str_contains("frame=12 fps=30", "fps="));
    assert!(!str_contains("frame=12", "fps="));
    assert!(str_eq("video", "video"));
    assert!(!str_eq("video", "audio"));
    assert_eq!(first_line("first\nsecond"), "first");
    assert_eq!(first_line("only"), "only");
}
