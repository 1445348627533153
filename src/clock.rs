use chrono::{Datelike, Timelike};
use vstd::prelude::*;

verus! {

/// One instant of the local wall clock, as the numbers the taskbar shows.
pub struct LocalInstant {
    pub year: i32,
    /// 1 to 12.
    pub month: u32,
    /// 1 to 31.
    pub day: u32,
    /// 0 to 23.
    pub hour: u32,
    /// 0 to 59.
    pub minute: u32,
    /// 0 to 59.
    pub second: u32,
    /// Days since the last Monday: 0 is Monday, 6 is Sunday.
    pub weekday: u32,
    /// Seconds since the Unix epoch.
    pub timestamp: i64,
}

impl LocalInstant {
    /// Every field lies in its range.
    pub open spec fn wf(&self) -> bool {
        &&& 1 <= self.month <= 12
        &&& 1 <= self.day <= 31
        &&& self.hour < 24
        &&& self.minute < 60
        &&& self.second < 60
        &&& self.weekday < 7
    }

    /// The fields name a real day of the Gregorian calendar, its weekday is
    /// that day's, and the wall-clock time differs from the timestamp by a
    /// time-zone offset of less than a day.
    pub open spec fn is_real(&self) -> bool {
        &&& self.wf()
        &&& self.day <= days_in_month(self.year as int, self.month as int)
        &&& self.weekday == weekday_of(self.year as int, self.month as int, self.day as int)
        &&& -86400 < local_seconds(*self) - self.timestamp < 86400
    }
}

pub open spec fn is_leap_year(y: int) -> bool {
    (y % 4 == 0 && y % 100 != 0) || y % 400 == 0
}

pub open spec fn days_in_month(y: int, m: int) -> int {
    if m == 2 {
        if is_leap_year(y) {
            29
        } else {
            28
        }
    } else if m == 4 || m == 6 || m == 9 || m == 11 {
        30
    } else {
        31
    }
}

/// Days from 1970-01-01 to the given Gregorian date (negative before it).
/// The year is counted from March, so that a leap day ends its year.
pub open spec fn days_from_epoch(y: int, m: int, d: int) -> int {
    let y1 = if m <= 2 {
        y - 1
    } else {
        y
    };
    let era = y1 / 400;
    let year_of_era = y1 - era * 400;
    let month_from_march = (m + 9) % 12;
    let day_of_year = (153 * month_from_march + 2) / 5 + d - 1;
    let day_of_era = year_of_era * 365 + year_of_era / 4 - year_of_era / 100 + day_of_year;
    era * 146097 + day_of_era - 719468
}

/// The weekday of a Gregorian date, counted from Monday; 1970-01-01 was a
/// Thursday.
pub open spec fn weekday_of(y: int, m: int, d: int) -> int {
    (days_from_epoch(y, m, d) + 3) % 7
}

/// The wall-clock reading of `t` as seconds since 1970-01-01 00:00:00 of the
/// same clock.
pub open spec fn local_seconds(t: LocalInstant) -> int {
    days_from_epoch(t.year as int, t.month as int, t.day as int) * 86400 + t.hour * 3600 + t.minute
        * 60 + t.second
}

/// The clock readings shown by the shell, all taken from one instant.
pub struct DateTimeInfo {
    pub time_12h: String,
    pub time_24h: String,
    pub date_short: String,
    pub date_long: String,
    pub day_of_week: String,
    pub timestamp: i64,
}

pub open spec fn digit_char(d: int) -> char {
    "0123456789"@[d]
}

/// `n` (below 100) as exactly two decimal digits.
pub open spec fn two_digits(n: int) -> Seq<char> {
    seq![digit_char(n / 10), digit_char(n % 10)]
}

/// `n` in decimal, without leading zeros.
pub open spec fn decimal(n: nat) -> Seq<char>
    decreases n,
{
    if n < 10 {
        seq![digit_char(n as int)]
    } else {
        decimal(n / 10).push(digit_char((n % 10) as int))
    }
}

/// `n` in decimal, padded with zeros to at least four digits.
pub open spec fn four_digits(n: nat) -> Seq<char> {
    if n < 10 {
        "000"@ + decimal(n)
    } else if n < 100 {
        "00"@ + decimal(n)
    } else if n < 1000 {
        "0"@ + decimal(n)
    } else {
        decimal(n)
    }
}

/// A year as four digits; a year outside 0..=9999 carries its sign.
pub open spec fn year_text(y: int) -> Seq<char> {
    if 0 <= y <= 9999 {
        four_digits(y as nat)
    } else if y > 9999 {
        "+"@ + four_digits(y as nat)
    } else {
        "-"@ + four_digits((-y) as nat)
    }
}

/// The hour on a 12-hour dial: 12, 1, ..., 11.
pub open spec fn dial_hour(h: int) -> int {
    if h % 12 == 0 {
        12
    } else {
        h % 12
    }
}

pub open spec fn meridiem(h: int) -> Seq<char> {
    if h < 12 {
        "AM"@
    } else {
        "PM"@
    }
}

pub open spec fn month_name(m: int) -> Seq<char> {
    if m == 1 {
        "January"@
    } else if m == 2 {
        "February"@
    } else if m == 3 {
        "March"@
    } else if m == 4 {
        "April"@
    } else if m == 5 {
        "May"@
    } else if m == 6 {
        "June"@
    } else if m == 7 {
        "July"@
    } else if m == 8 {
        "August"@
    } else if m == 9 {
        "September"@
    } else if m == 10 {
        "October"@
    } else if m == 11 {
        "November"@
    } else {
        "December"@
    }
}

pub open spec fn weekday_name(w: int) -> Seq<char> {
    if w == 0 {
        "Monday"@
    } else if w == 1 {
        "Tuesday"@
    } else if w == 2 {
        "Wednesday"@
    } else if w == 3 {
        "Thursday"@
    } else if w == 4 {
        "Friday"@
    } else if w == 5 {
        "Saturday"@
    } else {
        "Sunday"@
    }
}

/// "HH:MM AM" or "HH:MM PM".
pub open spec fn time_12h_text(t: LocalInstant) -> Seq<char> {
    two_digits(dial_hour(t.hour as int)) + ":"@ + two_digits(t.minute as int) + " "@ + meridiem(
        t.hour as int,
    )
}

/// "HH:MM".
pub open spec fn time_24h_text(t: LocalInstant) -> Seq<char> {
    two_digits(t.hour as int) + ":"@ + two_digits(t.minute as int)
}

/// "MM/DD/YYYY".
pub open spec fn date_short_text(t: LocalInstant) -> Seq<char> {
    two_digits(t.month as int) + "/"@ + two_digits(t.day as int) + "/"@ + year_text(t.year as int)
}

/// "Month DD, YYYY".
pub open spec fn date_long_text(t: LocalInstant) -> Seq<char> {
    month_name(t.month as int) + " "@ + two_digits(t.day as int) + ", "@ + year_text(t.year as int)
}

impl View for DateTimeInfo {
    type V = (Seq<char>, Seq<char>, Seq<char>, Seq<char>, Seq<char>, i64);

    open spec fn view(&self) -> Self::V {
        (
            self.time_12h@,
            self.time_24h@,
            self.date_short@,
            self.date_long@,
            self.day_of_week@,
            self.timestamp,
        )
    }
}

/// All six readings of `r` are those of the one instant `t`.
pub open spec fn shows_instant(r: DateTimeInfo, t: LocalInstant) -> bool {
    &&& r.time_12h@ == time_12h_text(t)
    &&& r.time_24h@ == time_24h_text(t)
    &&& r.date_short@ == date_short_text(t)
    &&& r.date_long@ == date_long_text(t)
    &&& r.day_of_week@ == weekday_name(t.weekday as int)
    &&& r.timestamp == t.timestamp
}

fn append_digit(s: &mut String, d: u64)
    requires
        d < 10,
    ensures
        final(s)@ == old(s)@ + seq![digit_char(d as int)],
{
    let digits = "0123456789";
    proof {
        reveal_strlit("0123456789");
    }
    let one = digits.substring_char(d as usize, d as usize + 1);
    assert(one@ =~= seq![digit_char(d as int)]);
    s.append(one);
}

fn append_two_digits(s: &mut String, n: u32)
    requires
        n < 100,
    ensures
        final(s)@ == old(s)@ + two_digits(n as int),
{
    append_digit(s, (n / 10) as u64);
    append_digit(s, (n % 10) as u64);
    assert(final(s)@ =~= old(s)@ + two_digits(n as int));
}

fn append_decimal(s: &mut String, n: u64)
    ensures
        final(s)@ == old(s)@ + decimal(n as nat),
    decreases n,
{
    if n >= 10 {
        append_decimal(s, n / 10);
    }
    append_digit(s, n % 10);
    assert(final(s)@ =~= old(s)@ + decimal(n as nat));
}

fn append_four_digits(s: &mut String, n: u64)
    ensures
        final(s)@ == old(s)@ + four_digits(n as nat),
{
    if n < 10 {
        s.append("000");
    } else if n < 100 {
        s.append("00");
    } else if n < 1000 {
        s.append("0");
    }
    append_decimal(s, n);
    assert(final(s)@ =~= old(s)@ + four_digits(n as nat));
}

fn append_year(s: &mut String, y: i32)
    ensures
        final(s)@ == old(s)@ + year_text(y as int),
{
    if 0 <= y && y <= 9999 {
        append_four_digits(s, y as u64);
    } else if y > 9999 {
        s.append("+");
        append_four_digits(s, y as u64);
    } else {
        s.append("-");
        append_four_digits(s, (-(y as i64)) as u64);
    }
    assert(final(s)@ =~= old(s)@ + year_text(y as int));
}

fn month_name_of(m: u32) -> (r: &'static str)
    ensures
        r@ == month_name(m as int),
{
    match m {
        1 => "January",
        2 => "February",
        3 => "March",
        4 => "April",
        5 => "May",
        6 => "June",
        7 => "July",
        8 => "August",
        9 => "September",
        10 => "October",
        11 => "November",
        _ => "December",
    }
}

fn weekday_name_of(w: u32) -> (r: &'static str)
    ensures
        r@ == weekday_name(w as int),
{
    match w {
        0 => "Monday",
        1 => "Tuesday",
        2 => "Wednesday",
        3 => "Thursday",
        4 => "Friday",
        5 => "Saturday",
        _ => "Sunday",
    }
}

/// Formats every reading of the clock from the single instant `t`.
pub fn date_time_info(t: &LocalInstant) -> (r: DateTimeInfo)
    requires
        t.wf(),
    ensures
        shows_instant(r, *t),
{
    let dial: u32 = if t.hour % 12 == 0 {
        12
    } else {
        t.hour % 12
    };
    let mut time_12h = String::new();
    append_two_digits(&mut time_12h, dial);
    time_12h.append(":");
    append_two_digits(&mut time_12h, t.minute);
    time_12h.append(" ");
    time_12h.append(if t.hour < 12 { "AM" } else { "PM" });

    let mut time_24h = String::new();
    append_two_digits(&mut time_24h, t.hour);
    time_24h.append(":");
    append_two_digits(&mut time_24h, t.minute);

    let mut date_short = String::new();
    append_two_digits(&mut date_short, t.month);
    date_short.append("/");
    append_two_digits(&mut date_short, t.day);
    date_short.append("/");
    append_year(&mut date_short, t.year);

    let mut date_long = String::from_str(month_name_of(t.month));
    date_long.append(" ");
    append_two_digits(&mut date_long, t.day);
    date_long.append(", ");
    append_year(&mut date_long, t.year);

    let day_of_week = String::from_str(weekday_name_of(t.weekday));
    assert(time_12h@ =~= time_12h_text(*t));
    assert(time_24h@ =~= time_24h_text(*t));
    assert(date_short@ =~= date_short_text(*t));
    assert(date_long@ =~= date_long_text(*t));
    DateTimeInfo { time_12h, time_24h, date_short, date_long, day_of_week, timestamp: t.timestamp }
}

/// Relies on chrono's `From<SystemTime> for DateTime<Local>` for the current
/// local time, which also takes a clock set before 1970. It is read through
/// `Datelike` (a valid Gregorian date, weekday counted from Monday),
/// `Timelike` (hour 0 to 23, minute 0 to 59, second 0 to 59) and
/// `DateTime::timestamp`; the local reading is the UTC one plus a
/// `FixedOffset`, which lies strictly within a day either way.
/// chrono still panics where the host's time-zone data cannot be used, or
/// where the clock lies hundreds of millennia from now.
#[verifier::external_body]
fn local_now() -> (r: LocalInstant)
    ensures
        r.is_real(),
{
    let now = chrono::DateTime::<chrono::Local>::from(std::time::SystemTime::now());
    LocalInstant {
        year: now.year(),
        month: now.month(),
        day: now.day(),
        hour: now.hour(),
        minute: now.minute(),
        second: now.second(),
        weekday: now.weekday().num_days_from_monday(),
        timestamp: now.timestamp(),
    }
}

/// Reads the local clock once and formats every reading from that instant.
pub fn get_datetime() -> (r: DateTimeInfo)
    ensures
        exists|t: LocalInstant| t.is_real() && #[trigger] shows_instant(r, t),
{
    let now = local_now();
    let r = date_time_info(&now);
    assert(shows_instant(r, now));
    r
}

/// Formatting one instant twice gives the same readings.
pub proof fn lemma_clock_repeatable(r1: DateTimeInfo, r2: DateTimeInfo, t: LocalInstant)
    requires
        shows_instant(r1, t),
        shows_instant(r2, t),
    ensures
        r1@ == r2@,
{
}

} // verus!
