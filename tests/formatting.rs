use candle_dash::chart::{change_label, headline, Trend};
use candle_dash::clock::{clock_label, format_time, MAX_CALENDAR_SECONDS, MIN_CALENDAR_SECONDS};
use candle_dash::format::{format_idr, format_usd};
use candle_dash::market::Currency;

#[test]
fn usd_zero_is_canonical() {
    assert_eq!(format_usd(0), "$0.00");
}

#[test]
fn usd_below_a_tenth_has_four_decimals() {
    assert_eq!(format_usd(500), "$0.0500");
    assert_eq!(format_usd(1), "$0.0001");
    assert_eq!(format_usd(999), "$0.0999");
}

#[test]
fn usd_below_a_thousand_has_two_decimals() {
    assert_eq!(format_usd(9_995_000), "$999.50");
    assert_eq!(format_usd(9_999_900), "$999.99");
    assert_eq!(format_usd(1_000), "$0.10");
}

#[test]
fn usd_groups_when_rounding_reaches_a_thousand() {
    assert_eq!(format_usd(9_999_960), "$1,000.00");
}

#[test]
fn usd_magnitude_suffixes() {
    assert_eq!(format_usd(12_345_000), "$1.23K");
    assert_eq!(format_usd(12_340_000), "$1.23K");
    assert_eq!(format_usd(10_000_000_000), "$1.00M");
    assert_eq!(format_usd(10_000_000_000_000), "$1.00B");
    assert_eq!(format_usd(1_038_790_000), "$103.88K");
}

#[test]
fn usd_keeps_the_sign() {
    assert_eq!(format_usd(-12_345_000), "$-1.23K");
    assert_eq!(format_usd(-9_995_000), "$-999.50");
    assert_eq!(format_usd(-500), "$-0.0500");
}

#[test]
fn usd_rounds_ties_to_even() {
    assert_eq!(format_usd(12_355_000), "$1.24K");
    assert_eq!(format_usd(12_365_000), "$1.24K");
}

#[test]
fn idr_groups_whole_numbers() {
    assert_eq!(format_idr(17_299_980_000_000), "1.729.998.000");
    assert_eq!(format_idr(0), "0");
    assert_eq!(format_idr(9_990_000), "999");
    assert_eq!(format_idr(10_000_000), "1.000");
}

#[test]
fn idr_rounds_half_away_from_zero() {
    assert_eq!(format_idr(5_000), "1");
    assert_eq!(format_idr(4_999), "0");
    assert_eq!(format_idr(-12_345_678), "-1.235");
    assert_eq!(format_idr(-4_000), "0");
}

#[test]
fn clock_label_reads_hours_and_minutes() {
    assert_eq!(clock_label(0, 0), "00:00");
    assert_eq!(clock_label(13 * 3600 + 7 * 60 + 59, 0), "13:07");
    assert_eq!(clock_label(13 * 3600 + 7 * 60, 3600), "14:07");
    assert_eq!(clock_label(-60, 0), "23:59");
    assert_eq!(clock_label(600, -3600), "23:10");
}

#[test]
fn time_out_of_calendar_range_is_invalid() {
    assert_eq!(format_time(i64::MAX), "Invalid Time");
    assert_eq!(format_time(i64::MIN), "Invalid Time");
    assert_eq!(format_time(MAX_CALENDAR_SECONDS + 1), "Invalid Time");
    assert_eq!(format_time(MIN_CALENDAR_SECONDS - 1), "Invalid Time");
}

#[test]
fn time_at_the_calendar_edges_is_valid() {
    assert_ne!(format_time(MAX_CALENDAR_SECONDS), "Invalid Time");
    assert_ne!(format_time(MIN_CALENDAR_SECONDS), "Invalid Time");
    assert_eq!(format_time(MAX_CALENDAR_SECONDS).len(), 5);
}

#[test]
fn time_in_range_is_hours_and_minutes() {
    let t = format_time(1_700_000_000);
    assert_eq!(t.len(), 5);
    assert_eq!(&t[2..3], ":");
    assert!(t[0..2].parse::<u32>().unwrap() < 24);
    assert!(t[3..5].parse::<u32>().unwrap() < 60);
}

#[test]
fn headline_aligns_right_after_the_mark() {
    assert_eq!(headline(Currency::Usd, 1_038_790_000), "USD       $103.88K");
    assert_eq!(headline(Currency::Idr, 17_299_980_000_000), "Rp   1.729.998.000");
}

#[test]
fn change_label_by_currency() {
    assert_eq!(change_label(Currency::Usd, 15_000), (Trend::Up, "(1.50)".to_string()));
    assert_eq!(change_label(Currency::Usd, -15_000), (Trend::Down, "(-1.50)".to_string()));
    assert_eq!(change_label(Currency::Usd, -10), (Trend::Down, "(-0.00)".to_string()));
    assert_eq!(change_label(Currency::Idr, 123_456_789), (Trend::Up, "(12346)".to_string()));
    assert_eq!(change_label(Currency::Idr, 0), (Trend::Flat, String::new()));
}
