//! Gregorian calendar arithmetic for log timestamps.
use core::time::Duration;
use vstd::prelude::*;

verus! {

/// Seconds in a day.
pub const SECONDS_PER_DAY: u64 = 86400;

/// The largest count of seconds since the Unix epoch that the calendar
/// conversion takes; its year still fits a `u32`.
pub const MAX_CLOCK_SECONDS: u64 = 100_000_000_000_000_000;

/// Whether `year` is a leap year of the Gregorian calendar.
pub open spec fn leap(year: int) -> bool {
    year % 4 == 0 && (year % 100 != 0 || year % 400 == 0)
}

/// The number of days of `month` (1 to 12) in `year`.
pub open spec fn month_days(year: int, month: int) -> int {
    if month == 2 {
        if leap(year) { 29 } else { 28 }
    } else if month == 4 || month == 6 || month == 9 || month == 11 {
        30
    } else {
        31
    }
}

pub fn is_leap_year(year: u32) -> (r: bool)
    ensures
        r == leap(year as int),
{
    year % 4 == 0 && (year % 100 != 0 || year % 400 == 0)
}

/// Days in `month` of `year`; a month outside 1..=12 counts 30 days.
pub fn days_in_month(year: u32, month: u32) -> (r: u32)
    ensures
        1 <= month <= 12 ==> r == month_days(year as int, month as int),
        !(1 <= month <= 12) ==> r == 30,
{
    match month {
        1 => 31,
        2 => {
            if is_leap_year(year) {
                29
            } else {
                28
            }
        },
        3 => 31,
        4 => 30,
        5 => 31,
        6 => 30,
        7 => 31,
        8 => 31,
        9 => 30,
        10 => 31,
        11 => 30,
        12 => 31,
        _ => 30,
    }
}

/// Seconds in `year`.
pub open spec fn year_seconds(year: int) -> int {
    if leap(year) {
        366 * 86400int
    } else {
        365 * 86400int
    }
}

/// Seconds from the Unix epoch to the start of `year`.
pub open spec fn seconds_before_year(year: int) -> int
    decreases year - 1970,
{
    if year <= 1970 {
        0
    } else {
        seconds_before_year(year - 1) + year_seconds(year - 1)
    }
}

/// Seconds from the start of `year` to the start of `month` in it.
pub open spec fn seconds_before_month(year: int, month: int) -> int
    decreases month,
{
    if month <= 1 {
        0
    } else {
        seconds_before_month(year, month - 1) + month_days(year, month - 1) * 86400
    }
}

/// A moment of the UTC calendar, to the second.
pub struct CivilTime {
    pub year: u32,
    pub month: u32,
    pub day: u32,
    pub hour: u32,
    pub minute: u32,
    pub second: u32,
}

/// `t` is a valid calendar moment, `total` seconds after the Unix epoch.
pub open spec fn is_civil_of(t: CivilTime, total: int) -> bool {
    &&& 1970 <= t.year
    &&& 1 <= t.month <= 12
    &&& 1 <= t.day <= month_days(t.year as int, t.month as int)
    &&& t.hour < 24
    &&& t.minute < 60
    &&& t.second < 60
    &&& seconds_before_year(t.year as int) + seconds_before_month(t.year as int, t.month as int) + (
    t.day - 1) * 86400 + t.hour * 3600 + t.minute * 60 + t.second == total
}

proof fn lemma_seconds_before_year_grows(year: int)
    requires
        year >= 1970,
    ensures
        seconds_before_year(year) >= (year - 1970) * (365 * 86400),
    decreases year - 1970,
{
    if year > 1970 {
        lemma_seconds_before_year_grows(year - 1);
        assert(seconds_before_year(year) == seconds_before_year(year - 1) + year_seconds(year - 1));
        assert(year_seconds(year - 1) >= 365 * 86400);
        assert((year - 1970) * (365 * 86400) == (year - 1 - 1970) * (365 * 86400) + 365 * 86400)
            by (nonlinear_arith);
        assert(seconds_before_year(year) >= (year - 1970) * (365 * 86400));
    } else {
        assert(seconds_before_year(year) == 0);
        assert((year - 1970) * (365 * 86400) == 0);
    }
}

proof fn lemma_months_fill_year(year: int)
    ensures
        seconds_before_month(year, 13) == year_seconds(year),
{
    reveal_with_fuel(seconds_before_month, 13);
}

/// Seconds in `year`.
fn year_length(year: u32) -> (r: u64)
    ensures
        r == year_seconds(year as int),
{
    if is_leap_year(year) {
        366 * SECONDS_PER_DAY
    } else {
        365 * SECONDS_PER_DAY
    }
}

/// The calendar moment `total_seconds` after the Unix epoch.
pub fn civil_from_unix(total_seconds: u64) -> (t: CivilTime)
    requires
        total_seconds <= MAX_CLOCK_SECONDS,
    ensures
        is_civil_of(t, total_seconds as int),
{
    let mut remaining: u64 = total_seconds;
    let mut year: u32 = 1970;
    while remaining >= year_length(year)
        invariant
            1970 <= year,
            remaining + seconds_before_year(year as int) == total_seconds,
            total_seconds <= MAX_CLOCK_SECONDS,
        decreases remaining,
    {
        proof {
            lemma_seconds_before_year_grows(year + 1);
        }
        remaining -= year_length(year);
        assert(seconds_before_year(year + 1) == seconds_before_year(year as int) + year_seconds(
            year as int,
        ));
        assert((year + 1 - 1970) * (365 * 86400) <= MAX_CLOCK_SECONDS);
        assert(year + 1 - 1970 <= 4000000000) by (nonlinear_arith)
            requires
                (year + 1 - 1970) * (365 * 86400) <= 100_000_000_000_000_000,
        ;
        year += 1;
    }
    let ghost in_year = remaining;
    proof {
        lemma_months_fill_year(year as int);
    }
    let mut month: u32 = 1;
    while remaining >= days_in_month(year, month) as u64 * SECONDS_PER_DAY
        invariant
            1 <= month <= 12,
            in_year < year_seconds(year as int),
            remaining + seconds_before_month(year as int, month as int) == in_year,
            seconds_before_month(year as int, 13) == year_seconds(year as int),
        decreases 12 - month,
    {
        remaining -= days_in_month(year, month) as u64 * SECONDS_PER_DAY;
        assert(seconds_before_month(year as int, month + 1) == seconds_before_month(
            year as int,
            month as int,
        ) + month_days(year as int, month as int) * 86400);
        if month == 12 {
            assert(false);
        }
        month += 1;
    }
    let day = (remaining / SECONDS_PER_DAY) as u32 + 1;
    let rest = remaining % SECONDS_PER_DAY;
    let hour = (rest / 3600) as u32;
    let minute = ((rest % 3600) / 60) as u32;
    let second = (rest % 60) as u32;
    CivilTime { year, month, day, hour, minute, second }
}

/// The decimal digit of `d` (0 to 9).
pub open spec fn digit(d: int) -> char {
    if d == 0 {
        '0'
    } else if d == 1 {
        '1'
    } else if d == 2 {
        '2'
    } else if d == 3 {
        '3'
    } else if d == 4 {
        '4'
    } else if d == 5 {
        '5'
    } else if d == 6 {
        '6'
    } else if d == 7 {
        '7'
    } else if d == 8 {
        '8'
    } else {
        '9'
    }
}

/// `n` written in decimal, without leading zeros.
pub open spec fn decimal(n: nat) -> Seq<char>
    decreases n,
{
    if n < 10 {
        seq![digit(n as int)]
    } else {
        decimal(n / 10) + seq![digit((n % 10) as int)]
    }
}

/// The text `year-month-day hour:minute:second.millis`, each number in
/// decimal without padding.
pub open spec fn stamp_text(t: CivilTime, millis: nat) -> Seq<char> {
    decimal(t.year as nat) + seq!['-'] + decimal(t.month as nat) + seq!['-'] + decimal(
        t.day as nat,
    ) + seq![' '] + decimal(t.hour as nat) + seq![':'] + decimal(t.minute as nat) + seq![':']
        + decimal(t.second as nat) + seq!['.'] + decimal(millis)
}

fn digit_text(d: u64) -> (r: &'static str)
    requires
        d < 10,
    ensures
        r@ == seq![digit(d as int)],
{
    proof {
        reveal_strlit("0");
        reveal_strlit("1");
        reveal_strlit("2");
        reveal_strlit("3");
        reveal_strlit("4");
        reveal_strlit("5");
        reveal_strlit("6");
        reveal_strlit("7");
        reveal_strlit("8");
        reveal_strlit("9");
    }
    let r = match d {
        0 => "0",
        1 => "1",
        2 => "2",
        3 => "3",
        4 => "4",
        5 => "5",
        6 => "6",
        7 => "7",
        8 => "8",
        _ => "9",
    };
    assert(r@ =~= seq![digit(d as int)]);
    r
}

/// `n` in decimal.
pub fn decimal_text(n: u64) -> (r: String)
    ensures
        r@ == decimal(n as nat),
    decreases n,
{
    if n < 10 {
        String::from_str(digit_text(n))
    } else {
        let mut r = decimal_text(n / 10);
        r.append(digit_text(n % 10));
        r
    }
}

fn append_number(s: &mut String, sep: &str, n: u64)
    ensures
        final(s)@ == old(s)@ + sep@ + decimal(n as nat),
{
    s.append(sep);
    let d = decimal_text(n);
    s.append(d.as_str());
}

/// The timestamp text of `t` with `millis` milliseconds.
pub fn format_stamp(t: &CivilTime, millis: u32) -> (r: String)
    ensures
        r@ == stamp_text(*t, millis as nat),
{
    proof {
        reveal_strlit("-");
        reveal_strlit(" ");
        reveal_strlit(":");
        reveal_strlit(".");
    }
    let mut r = decimal_text(t.year as u64);
    append_number(&mut r, "-", t.month as u64);
    append_number(&mut r, "-", t.day as u64);
    append_number(&mut r, " ", t.hour as u64);
    append_number(&mut r, ":", t.minute as u64);
    append_number(&mut r, ":", t.second as u64);
    append_number(&mut r, ".", millis as u64);
    assert(r@ =~= stamp_text(*t, millis as nat));
    r
}

/// Relies on `SystemTime::elapsed` from the Unix epoch: the time now, or
/// nothing when the clock reads before the epoch.
#[verifier::external_body]
fn elapsed_since_epoch() -> (r: Option<Duration>) {
    std::time::UNIX_EPOCH.elapsed().ok()
}

/// Relies on `Duration::as_secs`: the whole seconds of a duration.
pub assume_specification[ core::time::Duration::as_secs ](d: &Duration) -> u64;

/// Relies on `Duration::subsec_millis`: the fractional part in whole
/// milliseconds, which std documents as less than one thousand.
pub assume_specification[ core::time::Duration::subsec_millis ](d: &Duration) -> (r: u32)
    ensures
        r < 1000,
;

/// The current UTC time as `year-month-day hour:minute:second.millis`. A clock
/// that reads before the Unix epoch, or past the calendar's range, stamps the
/// epoch itself.
pub fn now_utc() -> (r: String)
    ensures
        exists|t: CivilTime, secs: int, millis: nat|
            0 <= secs && millis < 1000 && is_civil_of(t, secs) && r@ == stamp_text(t, millis),
{
    let (secs, millis) = match elapsed_since_epoch() {
        Some(d) => {
            let secs = d.as_secs();
            if secs <= MAX_CLOCK_SECONDS {
                (secs, d.subsec_millis())
            } else {
                (0, 0)
            }
        },
        None => (0, 0),
    };
    let t = civil_from_unix(secs);
    let r = format_stamp(&t, millis);
    assert(is_civil_of(t, secs as int) && r@ == stamp_text(t, millis as nat));
    r
}

} // verus!
