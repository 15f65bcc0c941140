//! The wall clock panel: weekday labels, Beijing-time fields, and the
//! per-minute decisions of the clock loop.

use vstd::prelude::*;
use chinese_lunisolar_calendar::{ChineseVariant, LunisolarDate, SolarDate};
use chrono::{Datelike, FixedOffset, TimeZone, Timelike, Utc};
use crate::text::{push_decimal, same_text, text_view, two_digits};

verus! {

/// Seconds east of UTC of the time zone the dashboard shows (UTC+8).
pub const BEIJING_OFFSET_SECS: i32 = 28800;

/// Latest instant, in seconds since the UNIX epoch, that the date library
/// represents (262142-12-31 23:59:59 UTC).
pub const MAX_SECS: i64 = 8_210_266_876_799;

/// Earliest instant the date library represents (its `MIN_UTC`, in year -262143).
pub const MIN_SECS: i64 = -8_334_601_228_800;

/// Whether the date library can place the timestamp `ts` on its calendar.
/// Timestamps are read as signed seconds, so the largest `u64` values wrap
/// around to instants before 1970.
pub open spec fn in_calendar(ts: u64) -> bool {
    MIN_SECS <= (ts as i64) <= MAX_SECS
}

/// A UTC offset that the date library accepts (strictly within one day).
pub open spec fn valid_offset(offset_secs: i32) -> bool {
    -86400 < offset_secs < 86400
}

/// Whether the date library can place the timestamp `ts` on its calendar.
pub fn is_in_calendar(ts: u64) -> (r: bool)
    ensures
        r == in_calendar(ts),
{
    let secs: i64 = ts as i64;
    MIN_SECS <= secs && secs <= MAX_SECS
}

/// Chinese label of an English weekday name; unknown names give "星期八".
pub open spec fn week_label(day_name: Seq<char>) -> Seq<char> {
    if day_name == "Sunday"@ {
        "星期日"@
    } else if day_name == "Monday"@ {
        "星期一"@
    } else if day_name == "Tuesday"@ {
        "星期二"@
    } else if day_name == "Wednesday"@ {
        "星期三"@
    } else if day_name == "Thursday"@ {
        "星期四"@
    } else if day_name == "Friday"@ {
        "星期五"@
    } else if day_name == "Saturday"@ {
        "星期六"@
    } else {
        "星期八"@
    }
}

/// Maps an English weekday name (as printed by `%A`) to its Chinese label.
pub fn map_week(day_name: &str) -> (label: &'static str)
    ensures
        label@ == week_label(day_name@),
{
    if same_text(day_name, "Sunday") {
        "星期日"
    } else if same_text(day_name, "Monday") {
        "星期一"
    } else if same_text(day_name, "Tuesday") {
        "星期二"
    } else if same_text(day_name, "Wednesday") {
        "星期三"
    } else if same_text(day_name, "Thursday") {
        "星期四"
    } else if same_text(day_name, "Friday") {
        "星期五"
    } else if same_text(day_name, "Saturday") {
        "星期六"
    } else {
        "星期八"
    }
}

/// The English name of the weekday `days_from_sunday` days after Sunday,
/// as `%A` prints it.
pub open spec fn english_weekday_name(days_from_sunday: u32) -> Seq<char> {
    if days_from_sunday == 0 {
        "Sunday"@
    } else if days_from_sunday == 1 {
        "Monday"@
    } else if days_from_sunday == 2 {
        "Tuesday"@
    } else if days_from_sunday == 3 {
        "Wednesday"@
    } else if days_from_sunday == 4 {
        "Thursday"@
    } else if days_from_sunday == 5 {
        "Friday"@
    } else {
        "Saturday"@
    }
}

/// The Chinese label of the weekday `days_from_sunday` days after Sunday.
pub open spec fn chinese_weekday(days_from_sunday: u32) -> Seq<char> {
    if days_from_sunday == 0 {
        "星期日"@
    } else if days_from_sunday == 1 {
        "星期一"@
    } else if days_from_sunday == 2 {
        "星期二"@
    } else if days_from_sunday == 3 {
        "星期三"@
    } else if days_from_sunday == 4 {
        "星期四"@
    } else if days_from_sunday == 5 {
        "星期五"@
    } else {
        "星期六"@
    }
}

proof fn weekday_names_distinct()
    ensures
        "Sunday"@ != "Monday"@,
        "Sunday"@ != "Tuesday"@,
        "Sunday"@ != "Wednesday"@,
        "Sunday"@ != "Thursday"@,
        "Sunday"@ != "Friday"@,
        "Sunday"@ != "Saturday"@,
        "Monday"@ != "Tuesday"@,
        "Monday"@ != "Wednesday"@,
        "Monday"@ != "Thursday"@,
        "Monday"@ != "Friday"@,
        "Monday"@ != "Saturday"@,
        "Tuesday"@ != "Wednesday"@,
        "Tuesday"@ != "Thursday"@,
        "Tuesday"@ != "Friday"@,
        "Tuesday"@ != "Saturday"@,
        "Wednesday"@ != "Thursday"@,
        "Wednesday"@ != "Friday"@,
        "Wednesday"@ != "Saturday"@,
        "Thursday"@ != "Friday"@,
        "Thursday"@ != "Saturday"@,
        "Friday"@ != "Saturday"@,
{
    reveal_strlit("Sunday");
    reveal_strlit("Monday");
    reveal_strlit("Tuesday");
    reveal_strlit("Wednesday");
    reveal_strlit("Thursday");
    reveal_strlit("Friday");
    reveal_strlit("Saturday");
    assert("Sunday"@[1] != "Saturday"@[1]);
    assert("Tuesday"@[1] != "Thursday"@[1]);
    assert("Sunday"@[0] != "Monday"@[0]);
    assert("Sunday"@[0] != "Tuesday"@[0]);
    assert("Sunday"@[0] != "Wednesday"@[0]);
    assert("Sunday"@[0] != "Thursday"@[0]);
    assert("Sunday"@[0] != "Friday"@[0]);
    assert("Monday"@[0] != "Tuesday"@[0]);
    assert("Monday"@[0] != "Wednesday"@[0]);
    assert("Monday"@[0] != "Thursday"@[0]);
    assert("Monday"@[0] != "Friday"@[0]);
    assert("Monday"@[0] != "Saturday"@[0]);
    assert("Tuesday"@[0] != "Wednesday"@[0]);
    assert("Tuesday"@[0] != "Friday"@[0]);
    assert("Tuesday"@[0] != "Saturday"@[0]);
    assert("Wednesday"@[0] != "Thursday"@[0]);
    assert("Wednesday"@[0] != "Friday"@[0]);
    assert("Wednesday"@[0] != "Saturday"@[0]);
    assert("Thursday"@[0] != "Friday"@[0]);
    assert("Thursday"@[0] != "Saturday"@[0]);
    assert("Friday"@[0] != "Saturday"@[0]);
}

/// Each of the seven English weekday names gets its own Chinese label,
/// "星期" followed by the day's numeral, never the fallback "星期八".
pub proof fn weekday_names_labelled(days_from_sunday: u32)
    requires
        days_from_sunday < 7,
    ensures
        week_label(english_weekday_name(days_from_sunday)) == chinese_weekday(days_from_sunday),
        chinese_weekday(days_from_sunday) != "星期八"@,
{
    weekday_names_distinct();
    reveal_strlit("星期日");
    reveal_strlit("星期一");
    reveal_strlit("星期二");
    reveal_strlit("星期三");
    reveal_strlit("星期四");
    reveal_strlit("星期五");
    reveal_strlit("星期六");
    reveal_strlit("星期八");
    assert(chinese_weekday(days_from_sunday)[2] != "星期八"@[2]);
}

/// The Chinese label of the weekday `days_from_sunday` days after Sunday:
/// `map_week` of its English name.
pub fn weekday_label(days_from_sunday: u32) -> (s: &'static str)
    requires
        days_from_sunday < 7,
    ensures
        s@ == week_label(english_weekday_name(days_from_sunday)),
        s@ == chinese_weekday(days_from_sunday),
{
    proof { weekday_names_labelled(days_from_sunday); }
    if days_from_sunday == 0 {
        "星期日"
    } else if days_from_sunday == 1 {
        "星期一"
    } else if days_from_sunday == 2 {
        "星期二"
    } else if days_from_sunday == 3 {
        "星期三"
    } else if days_from_sunday == 4 {
        "星期四"
    } else if days_from_sunday == 5 {
        "星期五"
    } else {
        "星期六"
    }
}

/// The texts of the clock face: the hour (`%H:`), the minute (`%M`) and the
/// day of month (`%d`).
pub struct ClockTexts {
    pub hour: String,
    pub minute: String,
    pub date: String,
}

/// The texts of the clock face for a local time.
pub fn clock_texts(hour: u32, minute: u32, day: u32) -> (t: ClockTexts)
    ensures
        t.hour@ == two_digits(hour as nat) + ":"@,
        t.minute@ == two_digits(minute as nat),
        t.date@ == two_digits(day as nat),
{
    let mut h = String::new();
    push_two_digits(&mut h, hour);
    h.append(":");
    let mut m = String::new();
    push_two_digits(&mut m, minute);
    let mut d = String::new();
    push_two_digits(&mut d, day);
    assert(m@ =~= two_digits(minute as nat));
    assert(d@ =~= two_digits(day as nat));
    ClockTexts { hour: h, minute: m, date: d }
}

/// The lunar month and lunar day names (simplified Chinese) of the solar
/// date `year`-`month`-`day`, as the calendar library computes them; `None`
/// for an invalid date or one outside the library's range.
pub uninterp spec fn lunar_names_of(year: u16, month: u8, day: u8) -> Option<(Seq<char>, Seq<char>)>;

/// `SolarDate::from_ymd`, `LunisolarDate::from_solar_date`, then the lunar
/// month's and day's `to_str`. Trusted: the two names of the named
/// conversion, or `None` exactly when the library refuses the date; the
/// library returns errors and does not panic on any input.
#[verifier::external_body]
fn lunar_names(year: u16, month: u8, day: u8) -> (r: Option<(String, String)>)
    ensures
        r matches Some((m, d)) ==> lunar_names_of(year, month, day) == Some((m@, d@)),
        r is None <==> lunar_names_of(year, month, day) is None,
{
    let solar = match SolarDate::from_ymd(year, month, day) {
        Ok(solar) => solar,
        Err(_) => return None,
    };
    match LunisolarDate::from_solar_date(solar) {
        Ok(date) => Some((
            date.to_lunar_month().to_str(ChineseVariant::Simple).to_string(),
            date.to_lunar_day().to_str().to_string(),
        )),
        Err(_) => None,
    }
}

/// The lunar date label of the clock face for the solar date
/// `year`-`month`-`day`: the lunar month's name followed by the lunar day's.
pub fn lunar_date_label(year: u16, month: u8, day: u8) -> (r: Option<String>)
    ensures
        match lunar_names_of(year, month, day) {
            Some((m, d)) => r is Some && r->0@ == m + d,
            None => r is None,
        },
{
    match lunar_names(year, month, day) {
        Some((m, d)) => {
            let mut label = m;
            label.append(d.as_str());
            Some(label)
        },
        None => None,
    }
}

/// Whole days from 1970-01-01 to the local date of the instant `secs`
/// seen at `offset_secs` east of UTC.
pub open spec fn local_days(secs: i64, offset_secs: i32) -> int {
    (secs + offset_secs) / 86400
}

/// Seconds since local midnight of the instant `secs` at `offset_secs`.
pub open spec fn local_second_of_day(secs: i64, offset_secs: i32) -> int {
    (secs + offset_secs) % 86400
}

/// Hour (0..=23) of the instant `secs` at `offset_secs`.
pub open spec fn local_hour(secs: i64, offset_secs: i32) -> int {
    local_second_of_day(secs, offset_secs) / 3600
}

/// Minute (0..=59) of the instant `secs` at `offset_secs`.
pub open spec fn local_minute(secs: i64, offset_secs: i32) -> int {
    (local_second_of_day(secs, offset_secs) % 3600) / 60
}

/// Day of the 400-year era (0..=146096) of the day `days` counted from
/// 1970-01-01, in the proleptic Gregorian calendar with years starting on
/// March 1st.
pub open spec fn day_of_era(days: int) -> int {
    (days + 719468) % 146097
}

/// Year of the era (0..=399) of the day of era `doe`.
pub open spec fn year_of_era(doe: int) -> int {
    (doe - doe / 1460 + doe / 36524 - doe / 146096) / 365
}

/// Day of the March-based year (0..=365) of the day of era `doe`.
pub open spec fn day_of_march_year(doe: int) -> int {
    let yoe = year_of_era(doe);
    doe - (365 * yoe + yoe / 4 - yoe / 100)
}

/// Month of the March-based year (0 = March ..= 11 = February).
pub open spec fn march_month(days: int) -> int {
    (5 * day_of_march_year(day_of_era(days)) + 2) / 153
}

/// Calendar month (1..=12) of the day `days` counted from 1970-01-01.
pub open spec fn civil_month(days: int) -> int {
    let mp = march_month(days);
    if mp < 10 {
        mp + 3
    } else {
        mp - 9
    }
}

/// Day of month (1..=31) of the day `days` counted from 1970-01-01.
pub open spec fn civil_day(days: int) -> int {
    day_of_march_year(day_of_era(days)) - (153 * march_month(days) + 2) / 5 + 1
}

/// Month of the instant `secs` at `offset_secs`.
pub open spec fn local_month(secs: i64, offset_secs: i32) -> int {
    civil_month(local_days(secs, offset_secs))
}

/// Day of month of the instant `secs` at `offset_secs`.
pub open spec fn local_day(secs: i64, offset_secs: i32) -> int {
    civil_day(local_days(secs, offset_secs))
}

/// `chrono::Datelike::month` of `Utc.timestamp(secs, 0)` moved to the fixed
/// offset. Trusted: chrono counts seconds without leap seconds on the
/// proleptic Gregorian calendar, so the month is that of the local day
/// number; chrono documents it to lie in 1..=12. `timestamp` and
/// `FixedOffset::east` panic out of range, which the precondition excludes.
#[verifier::external_body]
fn month_at(secs: i64, offset_secs: i32) -> (m: u32)
    requires
        MIN_SECS <= secs <= MAX_SECS,
        valid_offset(offset_secs),
    ensures
        m == local_month(secs, offset_secs),
        1 <= m <= 12,
{
    #[allow(deprecated)]
    Utc.timestamp(secs, 0).with_timezone(&FixedOffset::east(offset_secs)).month()
}

/// `chrono::Datelike::day` of the same instant. Trusted: the day of month
/// of the local day number, documented to lie in 1..=31.
#[verifier::external_body]
fn day_at(secs: i64, offset_secs: i32) -> (d: u32)
    requires
        MIN_SECS <= secs <= MAX_SECS,
        valid_offset(offset_secs),
    ensures
        d == local_day(secs, offset_secs),
        1 <= d <= 31,
{
    #[allow(deprecated)]
    Utc.timestamp(secs, 0).with_timezone(&FixedOffset::east(offset_secs)).day()
}

/// `chrono::Timelike::hour` of the same instant. Trusted: the hour of the
/// local second of the day, documented to lie in 0..=23.
#[verifier::external_body]
fn hour_at(secs: i64, offset_secs: i32) -> (h: u32)
    requires
        MIN_SECS <= secs <= MAX_SECS,
        valid_offset(offset_secs),
    ensures
        h == local_hour(secs, offset_secs),
        h <= 23,
{
    #[allow(deprecated)]
    Utc.timestamp(secs, 0).with_timezone(&FixedOffset::east(offset_secs)).hour()
}

/// `chrono::Timelike::minute` of the same instant. Trusted: the minute of
/// the local second of the day, documented to lie in 0..=59.
#[verifier::external_body]
fn minute_at(secs: i64, offset_secs: i32) -> (mi: u32)
    requires
        MIN_SECS <= secs <= MAX_SECS,
        valid_offset(offset_secs),
    ensures
        mi == local_minute(secs, offset_secs),
        mi <= 59,
{
    #[allow(deprecated)]
    Utc.timestamp(secs, 0).with_timezone(&FixedOffset::east(offset_secs)).minute()
}

/// The calendar fields of an instant in Beijing time.
pub struct LocalFields {
    pub month: u32,
    pub day: u32,
    pub hour: u32,
    pub minute: u32,
}

/// Calendar fields of the UNIX timestamp `ts` (read as signed seconds) in
/// Beijing time (UTC+8).
pub fn beijing_fields(ts: u64) -> (f: LocalFields)
    requires
        in_calendar(ts),
    ensures
        f.month == local_month(ts as i64, BEIJING_OFFSET_SECS),
        f.day == local_day(ts as i64, BEIJING_OFFSET_SECS),
        f.hour == local_hour(ts as i64, BEIJING_OFFSET_SECS),
        f.minute == local_minute(ts as i64, BEIJING_OFFSET_SECS),
        1 <= f.month <= 12,
        1 <= f.day <= 31,
        f.hour <= 23,
        f.minute <= 59,
{
    let secs: i64 = ts as i64;
    LocalFields {
        month: month_at(secs, BEIJING_OFFSET_SECS),
        day: day_at(secs, BEIJING_OFFSET_SECS),
        hour: hour_at(secs, BEIJING_OFFSET_SECS),
        minute: minute_at(secs, BEIJING_OFFSET_SECS),
    }
}

fn push_two_digits(out: &mut String, n: u32)
    ensures
        final(out)@ == old(out)@ + two_digits(n as nat),
{
    if n < 10 {
        out.append("0");
        proof { reveal_strlit("0"); }
    }
    push_decimal(out, n as u64);
    assert(final(out)@ =~= old(out)@ + two_digits(n as nat));
}

/// `%m-%d %H:%M` rendered from calendar fields.
pub open spec fn stamp_text(month: nat, day: nat, hour: nat, minute: nat) -> Seq<char> {
    two_digits(month) + seq!['-'] + two_digits(day) + seq![' '] + two_digits(hour) + seq![':']
        + two_digits(minute)
}

/// "更新时间:" followed by the `%m-%d %H:%M` stamp of the given fields.
pub fn update_time_text(month: u32, day: u32, hour: u32, minute: u32) -> (s: String)
    ensures
        s@ == "更新时间:"@ + stamp_text(month as nat, day as nat, hour as nat, minute as nat),
{
    let mut s = String::from_str("更新时间:");
    push_two_digits(&mut s, month);
    s.append("-");
    push_two_digits(&mut s, day);
    s.append(" ");
    push_two_digits(&mut s, hour);
    s.append(":");
    push_two_digits(&mut s, minute);
    proof {
        reveal_strlit("-");
        reveal_strlit(" ");
        reveal_strlit(":");
    }
    assert(s@ =~= "更新时间:"@ + stamp_text(month as nat, day as nat, hour as nat, minute as nat));
    s
}

/// `%m月%d日` rendered from a month and a day.
pub fn date_label(month: u32, day: u32) -> (s: String)
    ensures
        s@ == two_digits(month as nat) + "月"@ + two_digits(day as nat) + "日"@,
{
    let mut s = String::new();
    push_two_digits(&mut s, month);
    s.append("月");
    push_two_digits(&mut s, day);
    s.append("日");
    assert(s@ =~= two_digits(month as nat) + "月"@ + two_digits(day as nat) + "日"@);
    s
}

/// `%H时` rendered from an hour.
pub fn hour_label(hour: u32) -> (s: String)
    ensures
        s@ == two_digits(hour as nat) + "时"@,
{
    let mut s = String::new();
    push_two_digits(&mut s, hour);
    s.append("时");
    assert(s@ =~= two_digits(hour as nat) + "时"@);
    s
}

/// What the clock loop last brought up to date: the hour and the day of
/// month it has refreshed the panels for.
#[derive(Clone, Copy, Debug, PartialEq, Eq, Structural)]
pub struct ClockState {
    pub hour: u32,
    pub date: u32,
}

/// The work one minute tick asks for, besides redrawing the minute label and
/// the wifi icon, which happen on every tick.
#[derive(Clone, Copy, Debug, PartialEq, Eq, Structural)]
pub struct TickPlan {
    /// Redraw the hour label, and refresh the hourly weather with wifi on.
    pub new_hour: bool,
    /// Redraw the lunar date, the day of month and the weekday.
    pub new_day: bool,
    /// Within the hourly refresh, also refresh the daily weather and sync
    /// the system time.
    pub daily_refresh: bool,
}

impl ClockState {
    /// The state before any panel was drawn: an hour and a day no clock shows.
    pub fn unset() -> (s: ClockState)
        ensures
            s.hour == 25,
            s.date == 32,
    {
        ClockState { hour: 25, date: 32 }
    }

    /// The state once the panels show `hour` and `date`.
    pub open spec fn at_spec(hour: u32, date: u32) -> ClockState {
        ClockState { hour, date }
    }

    /// The state once the panels show `hour` and `date`.
    pub fn at(hour: u32, date: u32) -> (s: ClockState)
        ensures
            s == ClockState::at_spec(hour, date),
    {
        ClockState { hour, date }
    }
}

/// The plan of a tick at `hour`, `day` given the state `s`.
pub open spec fn spec_tick_plan(s: ClockState, hour: u32, day: u32) -> TickPlan {
    TickPlan {
        new_hour: hour != s.hour,
        new_day: day != s.date,
        daily_refresh: hour != s.hour && day != s.date,
    }
}

/// The state after a tick at `hour`, `day`: the day is only recorded as done
/// inside an hourly refresh.
pub open spec fn spec_tick_state(s: ClockState, hour: u32, day: u32) -> ClockState {
    if hour != s.hour {
        ClockState { hour, date: if day != s.date { day } else { s.date } }
    } else {
        s
    }
}

/// Decides what one minute tick at local `hour` and `day` of month must do,
/// and the state that follows it.
pub fn plan_tick(s: ClockState, hour: u32, day: u32) -> (r: (ClockState, TickPlan))
    ensures
        r.0 == spec_tick_state(s, hour, day),
        r.1 == spec_tick_plan(s, hour, day),
{
    let new_hour = hour != s.hour;
    let new_day = day != s.date;
    let plan = TickPlan { new_hour, new_day, daily_refresh: new_hour && new_day };
    let next = if new_hour {
        ClockState { hour, date: if new_day { day } else { s.date } }
    } else {
        s
    };
    (next, plan)
}

/// Everything one minute tick draws and does.
pub struct TickActions {
    /// The decisions of the tick (see `plan_tick`).
    pub plan: TickPlan,
    /// The minute label, rewritten on every tick.
    pub minute_text: String,
    /// The hour label, when the hour changed.
    pub hour_text: Option<String>,
    /// The day-of-month label, when the day changed.
    pub date_text: Option<String>,
    /// The weekday label, when the day changed.
    pub week_text: Option<&'static str>,
    /// The wifi indicator is brought up to date on every tick.
    pub refresh_wifi_icon: bool,
}

/// The actions of a minute tick at local `hour`:`minute` on day `day` of
/// the month, `days_from_sunday` days after Sunday, and the state after it.
pub fn tick_actions(s: ClockState, hour: u32, minute: u32, day: u32, days_from_sunday: u32) -> (r: (
    ClockState,
    TickActions,
))
    requires
        days_from_sunday < 7,
    ensures
        r.0 == spec_tick_state(s, hour, day),
        r.1.plan == spec_tick_plan(s, hour, day),
        r.1.minute_text@ == two_digits(minute as nat),
        r.1.hour_text is Some <==> hour != s.hour,
        r.1.hour_text matches Some(t) ==> t@ == two_digits(hour as nat) + ":"@,
        r.1.date_text is Some <==> day != s.date,
        r.1.date_text matches Some(t) ==> t@ == two_digits(day as nat),
        r.1.week_text is Some <==> day != s.date,
        r.1.week_text matches Some(t) ==> t@ == chinese_weekday(days_from_sunday),
        r.1.refresh_wifi_icon,
{
    let (next, plan) = plan_tick(s, hour, day);
    let texts = clock_texts(hour, minute, day);
    let hour_text = if plan.new_hour { Some(texts.hour) } else { None };
    let (date_text, week_text) = if plan.new_day {
        (Some(texts.date), Some(weekday_label(days_from_sunday)))
    } else {
        (None, None)
    };
    (next, TickActions {
        plan,
        minute_text: texts.minute,
        hour_text,
        date_text,
        week_text,
        refresh_wifi_icon: true,
    })
}

/// After any tick the recorded hour is the hour of that tick.
pub proof fn tick_records_hour(s: ClockState, hour: u32, day: u32)
    ensures
        spec_tick_state(s, hour, day).hour == hour,
{
}

/// A tick that starts a new hour leaves nothing pending: a second tick at
/// the same hour and day asks for no hourly or daily work.
pub proof fn tick_settles(s: ClockState, hour: u32, day: u32)
    requires
        hour != s.hour,
    ensures
        spec_tick_state(s, hour, day) == ClockState::at_spec(hour, day),
        spec_tick_plan(spec_tick_state(s, hour, day), hour, day) == (TickPlan {
            new_hour: false,
            new_day: false,
            daily_refresh: false,
        }),
        spec_tick_state(spec_tick_state(s, hour, day), hour, day) == spec_tick_state(s, hour, day),
{
}

/// The daily refresh only runs inside an hourly refresh that sees a new day.
pub proof fn daily_refresh_needs_new_hour_and_day(s: ClockState, hour: u32, day: u32)
    ensures
        spec_tick_plan(s, hour, day).daily_refresh <==> (spec_tick_plan(s, hour, day).new_hour
            && spec_tick_plan(s, hour, day).new_day),
{
}

/// Seen from the unset state, the first tick refreshes everything.
pub proof fn first_tick_refreshes_all(hour: u32, day: u32)
    requires
        hour <= 23,
        1 <= day <= 31,
    ensures
        spec_tick_plan(ClockState { hour: 25, date: 32 }, hour, day) == (TickPlan {
            new_hour: true,
            new_day: true,
            daily_refresh: true,
        }),
{
}

/// The text of the string field `key` of the JSON document `body`, as
/// serde_json reads it; `None` when there is no such string field.
pub uninterp spec fn json_text_field(body: Seq<u8>, key: Seq<char>) -> Option<Seq<char>>;

/// `serde_json::from_slice::<Value>` followed by `Value::get(key)` and
/// `Value::as_str`. Trusted: the result is the named string field of the
/// parsed document (None when the bytes are no JSON, the key is missing or
/// its value is no string); serde_json does not panic on any input.
#[verifier::external_body]
fn json_string_field(body: &[u8], key: &str) -> (r: Option<String>)
    ensures
        text_view(r) == json_text_field(body@, key@),
{
    match serde_json::from_slice::<serde_json::Value>(body) {
        Ok(v) => v.get(key).and_then(serde_json::Value::as_str).map(str::to_string),
        Err(_) => None,
    }
}

/// The time string (`sysTime2`) that a time service reply carries, used to
/// set the system clock.
pub fn sys_time_of(body: &[u8]) -> (r: Option<String>)
    ensures
        text_view(r) == json_text_field(body@, "sysTime2"@),
{
    json_string_field(body, "sysTime2")
}

} // verus!
