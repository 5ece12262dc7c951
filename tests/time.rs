use window_kit::time::{
    civil_from_unix, days_in_month, decimal_text, format_stamp, is_leap_year, now_utc, CivilTime,
};

#[test]
fn test_leap_years() {
    assert!(is_leap_year(2000));
    assert!(!is_leap_year(1900));
    assert!(is_leap_year(2004));
    assert!(!is_leap_year(2001));
}

#[test]
fn test_days_in_month() {
    assert_eq!(days_in_month(2021, 1), 31);
    assert_eq!(days_in_month(2021, 2), 28);
    assert_eq!(days_in_month(2020, 2), 29); // leap year
    assert_eq!(days_in_month(2021, 4), 30);
    assert_eq!(days_in_month(2021, 12), 31);
}

#[test]
fn days_in_month_outside_the_year_counts_thirty() {
    assert_eq!(days_in_month(2021, 0), 30);
    assert_eq!(days_in_month(2021, 13), 30);
}

fn fields(t: &CivilTime) -> (u32, u32, u32, u32, u32, u32) {
    (t.year, t.month, t.day, t.hour, t.minute, t.second)
}

#[test]
fn epoch_is_first_of_january_1970() {
    assert_eq!(fields(&civil_from_unix(0)), (1970, 1, 1, 0, 0, 0));
}

#[test]
fn civil_time_of_known_instants() {
    // 2000-02-29 12:34:56 UTC
    assert_eq!(fields(&civil_from_unix(951_827_696)), (2000, 2, 29, 12, 34, 56));
    // 2021-12-31 23:59:59 UTC
    assert_eq!(fields(&civil_from_unix(1_640_995_199)), (2021, 12, 31, 23, 59, 59));
    // 2024-03-01 00:00:00 UTC
    assert_eq!(fields(&civil_from_unix(1_709_251_200)), (2024, 3, 1, 0, 0, 0));
}

#[test]
fn decimal_text_writes_digits() {
    assert_eq!(decimal_text(0), "0");
    assert_eq!(decimal_text(7), "7");
    assert_eq!(decimal_text(1970), "1970");
    assert_eq!(decimal_text(18446744073709551615), "18446744073709551615");
}

#[test]
fn stamp_has_no_padding() {
    let t = civil_from_unix(951_827_696);
    assert_eq!(format_stamp(&t, 7), "2000-2-29 12:34:56.7");
    let t = civil_from_unix(0);
    assert_eq!(format_stamp(&t, 999), "1970-1-1 0:0:0.999");
}

fn is_stamp(s: &str) -> bool {
    let parts: Vec<&str> = s.split(|c| c == '-' || c == ' ' || c == ':' || c == '.').collect();
    let widths = [(4, 4), (1, 2), (1, 2), (1, 2), (1, 2), (1, 2), (1, 3)];
    parts.len() == 7
        && parts.iter().zip(widths.iter()).all(|(p, (lo, hi))| {
            p.len() >= *lo && p.len() <= *hi && p.chars().all(|c| c.is_ascii_digit())
        })
}

#[test]
fn now_utc_is_a_stamp() {
    let now = now_utc();
    assert!(is_stamp(&now), "{}", now);
}
