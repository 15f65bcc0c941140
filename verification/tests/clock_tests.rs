use chrono::{Datelike, TimeZone, Timelike};
use mast_remarkable::clock::{
    beijing_fields, clock_texts, date_label, hour_label, is_in_calendar, lunar_date_label,
    map_week, plan_tick, sys_time_of, tick_actions, update_time_text, weekday_label, ClockState,
    MAX_SECS, MIN_SECS,
};

#[test]
fn weekday_labels() {
    assert_eq!(map_week("Sunday"), "星期日");
    assert_eq!(map_week("Monday"), "星期一");
    assert_eq!(map_week("Tuesday"), "星期二");
    assert_eq!(map_week("Wednesday"), "星期三");
    assert_eq!(map_week("Thursday"), "星期四");
    assert_eq!(map_week("Friday"), "星期五");
    assert_eq!(map_week("Saturday"), "星期六");
}

#[test]
fn unknown_weekday_label() {
    assert_eq!(map_week("Funday"), "星期八");
    assert_eq!(map_week(""), "星期八");
    assert_eq!(map_week("monday"), "星期八");
}

#[test]
fn beijing_fields_of_epoch() {
    let f = beijing_fields(0);
    assert_eq!((f.month, f.day, f.hour, f.minute), (1, 1, 8, 0));
}

#[test]
fn beijing_fields_cross_new_year() {
    // 2020-12-31 23:59:59 UTC is 2021-01-01 07:59:59 in Beijing.
    let f = beijing_fields(1_609_459_199);
    assert_eq!((f.month, f.day, f.hour, f.minute), (1, 1, 7, 59));
}

#[test]
fn beijing_fields_at_the_calendar_end() {
    let f = beijing_fields(MAX_SECS as u64);
    assert_eq!((f.month, f.day, f.hour, f.minute), (1, 1, 7, 59));
}

#[test]
fn calendar_bounds_are_the_date_library_bounds() {
    assert_eq!(chrono::DateTime::<chrono::Utc>::MAX_UTC.timestamp(), MAX_SECS);
    assert_eq!(chrono::DateTime::<chrono::Utc>::MIN_UTC.timestamp(), MIN_SECS);
    assert!(is_in_calendar(0));
    assert!(is_in_calendar(MAX_SECS as u64));
    assert!(!is_in_calendar(MAX_SECS as u64 + 1));
    assert!(is_in_calendar(u64::MAX));
    assert!(is_in_calendar(MIN_SECS as u64));
    assert!(!is_in_calendar((MIN_SECS - 1) as u64));
}

#[test]
fn wrapped_timestamps_read_as_before_1970() {
    // u64::MAX reads as -1: 1969-12-31 23:59:59 UTC, 07:59 in Beijing.
    let f = beijing_fields(u64::MAX);
    assert_eq!((f.month, f.day, f.hour, f.minute), (1, 1, 7, 59));
}

#[test]
fn time_texts() {
    assert_eq!(update_time_text(1, 2, 3, 4), "更新时间:01-02 03:04");
    assert_eq!(update_time_text(12, 31, 23, 59), "更新时间:12-31 23:59");
    assert_eq!(date_label(12, 5), "12月05日");
    assert_eq!(hour_label(7), "07时");
    assert_eq!(hour_label(0), "00时");
}

#[test]
fn first_tick_refreshes_everything() {
    let (s, p) = plan_tick(ClockState::unset(), 9, 14);
    assert!(p.new_hour && p.new_day && p.daily_refresh);
    assert_eq!(s, ClockState::at(9, 14));
}

#[test]
fn tick_settles_after_new_hour() {
    let (s, p) = plan_tick(ClockState::at(9, 14), 10, 14);
    assert!(p.new_hour && !p.new_day && !p.daily_refresh);
    assert_eq!(s, ClockState::at(10, 14));
    let (s2, p2) = plan_tick(s, 10, 14);
    assert!(!p2.new_hour && !p2.new_day && !p2.daily_refresh);
    assert_eq!(s2, s);
}

#[test]
fn new_day_without_new_hour_keeps_date_pending() {
    let (s, p) = plan_tick(ClockState::at(0, 14), 0, 15);
    assert!(!p.new_hour && p.new_day && !p.daily_refresh);
    assert_eq!(s, ClockState::at(0, 14));
}

#[test]
fn midnight_tick_refreshes_daily() {
    let (s, p) = plan_tick(ClockState::at(23, 14), 0, 15);
    assert!(p.new_hour && p.new_day && p.daily_refresh);
    assert_eq!(s, ClockState::at(0, 15));
}

#[test]
fn sys_time_from_reply() {
    let body = br#"{"sysTime1":"20201201120000","sysTime2":"2020-12-01 12:00:00"}"#;
    assert_eq!(sys_time_of(body), Some("2020-12-01 12:00:00".to_string()));
}

#[test]
fn sys_time_missing_or_bad() {
    assert_eq!(sys_time_of(br#"{"sysTime1":"x"}"#), None);
    assert_eq!(sys_time_of(br#"{"sysTime2":5}"#), None);
    assert_eq!(sys_time_of(b"not json"), None);
}

/// The day-number arithmetic that the calendar-field contracts state,
/// written out in plain Rust: (month, day, hour, minute) of `secs` at
/// `offset` seconds east of UTC.
fn stated_fields(secs: i64, offset: i64) -> (u32, u32, u32, u32) {
    let local = secs as i128 + offset as i128;
    let days = local.div_euclid(86400);
    let sod = local.rem_euclid(86400);
    let doe = (days + 719468).rem_euclid(146097);
    let yoe = (doe - doe / 1460 + doe / 36524 - doe / 146096) / 365;
    let doy = doe - (365 * yoe + yoe / 4 - yoe / 100);
    let mp = (5 * doy + 2) / 153;
    let day = doy - (153 * mp + 2) / 5 + 1;
    let month = if mp < 10 { mp + 3 } else { mp - 9 };
    (month as u32, day as u32, (sod / 3600) as u32, ((sod % 3600) / 60) as u32)
}

#[test]
fn stated_fields_agree_with_the_date_library() {
    let mut samples: Vec<i64> = vec![0, -1, 1, 86_399, 86_400, 951_782_400, 1_609_459_199, MAX_SECS, MIN_SECS];
    let mut x: i64 = MIN_SECS;
    while x < MAX_SECS - 7_777_777_777 {
        samples.push(x);
        x += 7_777_777_777;
    }
    for secs in 1_500_000_000i64..1_500_000_000 + 400 * 86_400 {
        if secs % 20_011 == 0 {
            samples.push(secs);
        }
    }
    for offset in [28_800i32, 0, -86_399, 86_399, -3_600] {
        for &secs in &samples {
            #[allow(deprecated)]
            let t = chrono::Utc.timestamp(secs, 0).with_timezone(&chrono::FixedOffset::east(offset));
            assert_eq!(
                stated_fields(secs, offset as i64),
                (t.month(), t.day(), t.hour(), t.minute()),
                "secs {} offset {}",
                secs,
                offset
            );
        }
    }
    for &secs in &samples {
        let f = beijing_fields(secs as u64);
        assert_eq!((f.month, f.day, f.hour, f.minute), stated_fields(secs, 28_800));
    }
}

#[test]
fn weekday_labels_by_number() {
    let names = ["Sunday", "Monday", "Tuesday", "Wednesday", "Thursday", "Friday", "Saturday"];
    let labels = ["星期日", "星期一", "星期二", "星期三", "星期四", "星期五", "星期六"];
    for d in 0..7u32 {
        assert_eq!(weekday_label(d), labels[d as usize]);
        assert_eq!(map_week(names[d as usize]), weekday_label(d));
    }
    // chrono's %A prints exactly these names for the weekday's number.
    let day = chrono::NaiveDate::from_ymd_opt(2024, 2, 11).unwrap();
    for k in 0..7 {
        let d = day + chrono::Duration::days(k);
        assert_eq!(d.format("%A").to_string(), names[d.weekday().num_days_from_sunday() as usize]);
    }
}

#[test]
fn clock_face_texts() {
    let t = clock_texts(9, 5, 31);
    assert_eq!(t.hour, "09:");
    assert_eq!(t.minute, "05");
    assert_eq!(t.date, "31");
    let t = clock_texts(23, 59, 1);
    assert_eq!((t.hour.as_str(), t.minute.as_str(), t.date.as_str()), ("23:", "59", "01"));
}

#[test]
fn tick_actions_on_a_quiet_minute() {
    let (s, a) = tick_actions(ClockState::at(10, 14), 10, 7, 14, 3);
    assert_eq!(s, ClockState::at(10, 14));
    assert_eq!(a.minute_text, "07");
    assert_eq!(a.hour_text, None);
    assert_eq!(a.date_text, None);
    assert_eq!(a.week_text, None);
    assert!(a.refresh_wifi_icon);
}

#[test]
fn tick_actions_at_midnight() {
    let (s, a) = tick_actions(ClockState::at(23, 14), 0, 0, 15, 4);
    assert_eq!(s, ClockState::at(0, 15));
    assert_eq!(a.minute_text, "00");
    assert_eq!(a.hour_text, Some("00:".to_string()));
    assert_eq!(a.date_text, Some("15".to_string()));
    assert_eq!(a.week_text, Some("星期四"));
    assert!(a.plan.new_hour && a.plan.new_day && a.plan.daily_refresh);
}

#[test]
fn lunar_labels() {
    assert_eq!(lunar_date_label(2024, 2, 10), Some("正月初一".to_string()));
    assert_eq!(lunar_date_label(2023, 2, 30), None);
    assert_eq!(lunar_date_label(2023, 13, 1), None);
    assert_eq!(lunar_date_label(1800, 1, 1), None);
    assert_eq!(lunar_date_label(2200, 1, 1), None);
    let today = chinese_lunisolar_calendar::LunisolarDate::from_ymd(2023, 11, false, 20).unwrap();
    let solar = today.to_solar_date();
    let year = solar.to_solar_year().to_u16();
    let month = solar.to_solar_month().to_u8();
    let day = solar.to_solar_day().to_u8();
    assert_eq!(lunar_date_label(year, month, day), Some("冬月二十".to_string()));
}
