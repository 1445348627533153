use chrono::{Datelike, NaiveDate, TimeZone, Timelike};
use kiosk::{date_time_info, get_datetime, LocalInstant};

fn instant(year: i32, month: u32, day: u32, hour: u32, minute: u32, weekday: u32) -> LocalInstant {
    LocalInstant { year, month, day, hour, minute, second: 0, weekday, timestamp: 0 }
}

#[test]
fn afternoon_in_march() {
    let when = chrono::Local.with_ymd_and_hms(2024, 3, 5, 14, 30, 0).earliest().unwrap();
    let t = LocalInstant { timestamp: when.timestamp(), ..instant(2024, 3, 5, 14, 30, 1) };
    let r = date_time_info(&t);
    assert_eq!(r.time_12h, "02:30 PM");
    assert_eq!(r.time_24h, "14:30");
    assert_eq!(r.date_short, "03/05/2024");
    assert_eq!(r.date_long, "March 05, 2024");
    assert_eq!(r.day_of_week, "Tuesday");
    assert_eq!(r.timestamp, when.timestamp());
}

#[test]
fn midnight_and_noon_on_the_dial() {
    let r = date_time_info(&instant(2023, 12, 31, 0, 0, 6));
    assert_eq!(r.time_12h, "12:00 AM");
    assert_eq!(r.time_24h, "00:00");
    assert_eq!(r.date_long, "December 31, 2023");
    assert_eq!(r.day_of_week, "Sunday");
    let r = date_time_info(&instant(2023, 1, 1, 12, 5, 6));
    assert_eq!(r.time_12h, "12:05 PM");
    assert_eq!(r.date_short, "01/01/2023");
    let r = date_time_info(&instant(2023, 1, 2, 23, 59, 0));
    assert_eq!(r.time_12h, "11:59 PM");
    assert_eq!(r.time_24h, "23:59");
    assert_eq!(r.day_of_week, "Monday");
}

#[test]
fn years_outside_four_digits() {
    assert_eq!(date_time_info(&instant(999, 7, 4, 9, 1, 2)).date_short, "07/04/0999");
    assert_eq!(date_time_info(&instant(7, 7, 4, 9, 1, 2)).date_long, "July 04, 0007");
    assert_eq!(date_time_info(&instant(10000, 2, 9, 9, 1, 2)).date_short, "02/09/+10000");
    assert_eq!(date_time_info(&instant(-1, 2, 9, 9, 1, 2)).date_short, "02/09/-0001");
    assert_eq!(date_time_info(&instant(-12345, 2, 9, 9, 1, 2)).date_long, "February 09, -12345");
}

#[test]
fn readings_match_the_calendar_library() {
    let days = [(2024, 2, 29, 1, 9), (1999, 11, 30, 11, 59), (2000, 6, 15, 12, 0), (1970, 1, 1, 0, 0)];
    for (y, m, d, h, min) in days {
        let naive = NaiveDate::from_ymd_opt(y, m, d).unwrap().and_hms_opt(h, min, 0).unwrap();
        let t = LocalInstant {
            year: naive.year(),
            month: naive.month(),
            day: naive.day(),
            hour: naive.hour(),
            minute: naive.minute(),
            second: naive.second(),
            weekday: naive.weekday().num_days_from_monday(),
            timestamp: naive.and_utc().timestamp(),
        };
        let r = date_time_info(&t);
        assert_eq!(r.time_12h, naive.format("%I:%M %p").to_string());
        assert_eq!(r.time_24h, naive.format("%H:%M").to_string());
        assert_eq!(r.date_short, naive.format("%m/%d/%Y").to_string());
        assert_eq!(r.date_long, naive.format("%B %d, %Y").to_string());
        assert_eq!(r.day_of_week, naive.format("%A").to_string());
    }
}

#[test]
fn same_instant_same_readings() {
    let t = instant(2024, 3, 5, 14, 30, 1);
    let a = date_time_info(&t);
    let b = date_time_info(&t);
    assert_eq!(a.time_12h, b.time_12h);
    assert_eq!(a.date_long, b.date_long);
    assert_eq!(a.timestamp, b.timestamp);
}

#[test]
fn current_readings_agree_with_each_other() {
    let r = get_datetime();
    let when = chrono::DateTime::from_timestamp(r.timestamp, 0).unwrap().with_timezone(&chrono::Local);
    assert_eq!(r.time_24h, when.format("%H:%M").to_string());
    assert_eq!(r.time_12h, when.format("%I:%M %p").to_string());
    assert_eq!(r.date_short, when.format("%m/%d/%Y").to_string());
    assert_eq!(r.date_long, when.format("%B %d, %Y").to_string());
    assert_eq!(r.day_of_week, when.format("%A").to_string());
}
