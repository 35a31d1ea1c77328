use rs_img::timestamp::parse_exif_timestamp;
use rs_img::timestamp::format_grouping;
use rs_img::timestamp::format_unique;
use rs_img::timestamp::leap_year;
use rs_img::timestamp::month_length;
use rs_img::timestamp::two_digit;
use rs_img::timestamp::DateTimeParts;

fn parts(year: u16, month: u8, day: u8, hour: u8, minute: u8, second: u8) -> DateTimeParts {
    DateTimeParts { year, month, day, hour, minute, second }
}

#[test]
fn parses_plain_timestamp() {
    let r = parse_exif_timestamp("2024:06:19 14:03:05");
    assert_eq!(r, Some(parts(2024, 6, 19, 14, 3, 5)));
}

#[test]
fn parses_midnight() {
    let r = parse_exif_timestamp("0000:01:01 00:00:00");
    assert_eq!(r, Some(parts(0, 1, 1, 0, 0, 0)));
}

#[test]
fn parses_last_second_of_year() {
    let r = parse_exif_timestamp("9999:12:31 23:59:59");
    assert_eq!(r, Some(parts(9999, 12, 31, 23, 59, 59)));
}

#[test]
fn parses_leap_day_of_leap_year() {
    let r = parse_exif_timestamp("2024:02:29 08:00:00");
    assert_eq!(r, Some(parts(2024, 2, 29, 8, 0, 0)));
}

#[test]
fn parses_leap_day_of_year_divisible_by_400() {
    let r = parse_exif_timestamp("2000:02:29 08:00:00");
    assert_eq!(r, Some(parts(2000, 2, 29, 8, 0, 0)));
}

#[test]
fn rejects_leap_day_of_common_year() {
    assert_eq!(parse_exif_timestamp("2023:02:29 08:00:00"), None);
}

#[test]
fn rejects_leap_day_of_century_year() {
    assert_eq!(parse_exif_timestamp("2100:02:29 08:00:00"), None);
}

#[test]
fn rejects_month_zero() {
    assert_eq!(parse_exif_timestamp("2024:00:10 10:00:00"), None);
}

#[test]
fn rejects_month_thirteen() {
    assert_eq!(parse_exif_timestamp("2024:13:10 10:00:00"), None);
}

#[test]
fn rejects_day_zero() {
    assert_eq!(parse_exif_timestamp("2024:06:00 10:00:00"), None);
}

#[test]
fn rejects_day_past_end_of_month() {
    assert_eq!(parse_exif_timestamp("2024:04:31 10:00:00"), None);
}

#[test]
fn rejects_hour_twenty_four() {
    assert_eq!(parse_exif_timestamp("2024:06:19 24:00:00"), None);
}

#[test]
fn rejects_minute_sixty() {
    assert_eq!(parse_exif_timestamp("2024:06:19 10:60:00"), None);
}

#[test]
fn rejects_second_sixty() {
    assert_eq!(parse_exif_timestamp("2024:06:19 10:00:60"), None);
}

#[test]
fn rejects_dash_separators() {
    assert_eq!(parse_exif_timestamp("2024-06-19 14:03:05"), None);
}

#[test]
fn rejects_t_separator() {
    assert_eq!(parse_exif_timestamp("2024:06:19T14:03:05"), None);
}

#[test]
fn rejects_short_string() {
    assert_eq!(parse_exif_timestamp("2024:06:19 14:03"), None);
}

#[test]
fn rejects_long_string() {
    assert_eq!(parse_exif_timestamp("2024:06:19 14:03:05.5"), None);
}

#[test]
fn rejects_empty_string() {
    assert_eq!(parse_exif_timestamp(""), None);
}

#[test]
fn rejects_letters_in_fields() {
    assert_eq!(parse_exif_timestamp("2o24:06:19 14:03:05"), None);
}

#[test]
fn two_digit_pads_with_zero() {
    assert_eq!(two_digit(5), "05");
    assert_eq!(two_digit(0), "00");
    assert_eq!(two_digit(99), "99");
}

#[test]
fn grouping_is_two_digit_year_and_month() {
    let g = format_grouping(parts(2024, 6, 19, 14, 3, 5));
    assert_eq!(g, "24_06");
}

#[test]
fn grouping_wraps_century() {
    let g = format_grouping(parts(2000, 12, 31, 0, 0, 0));
    assert_eq!(g, "00_12");
}

#[test]
fn unique_part_is_day_hour_minute_second() {
    let u = format_unique(parts(2024, 6, 19, 14, 3, 5));
    assert_eq!(u, "19_14_03_05");
}

#[test]
fn leap_year_rule() {
    assert!(leap_year(2024));
    assert!(leap_year(2000));
    assert!(!leap_year(2023));
    assert!(!leap_year(2100));
}

#[test]
fn month_lengths() {
    assert_eq!(month_length(2024, 1), 31);
    assert_eq!(month_length(2024, 2), 29);
    assert_eq!(month_length(2023, 2), 28);
    assert_eq!(month_length(2024, 4), 30);
    assert_eq!(month_length(2024, 12), 31);
}
