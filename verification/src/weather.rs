//! The weather panel: the service's report, its icon and description
//! tables, and the text and layout of the current, daily and hourly panels.

use vstd::prelude::*;
use crate::clock::{
    beijing_fields, local_day, local_hour, local_minute, local_month, date_label, hour_label,
    stamp_text, update_time_text, BEIJING_OFFSET_SECS, in_calendar,
};
use crate::text::{
    decimal, ends_with, ends_with_text, indexed_name, push_signed_decimal, same_text,
    signed_decimal, two_digits,
};

verus! {

/// One weather condition of the report.
pub struct WeatherDesc {
    pub description: String,
    pub icon: String,
    pub id: u16,
    pub main: String,
}

/// The current conditions. Temperatures are whole degrees Celsius, the
/// service's readings truncated toward zero.
pub struct Current {
    pub clouds: u8,
    pub dt: u64,
    pub feels_like: i32,
    pub temp: i32,
    pub weather: Vec<WeatherDesc>,
}

/// The temperatures of one day, in whole degrees Celsius truncated toward zero.
pub struct DailyTemp {
    pub day: i32,
    pub eve: i32,
    pub max: i32,
    pub min: i32,
    pub morn: i32,
    pub night: i32,
}

/// The forecast of one day.
pub struct Daily {
    pub dt: u64,
    pub temp: DailyTemp,
    pub weather: Vec<WeatherDesc>,
}

/// The forecast of one hour; `temp` in whole degrees truncated toward zero.
pub struct Hourly {
    pub dt: u64,
    pub temp: i32,
    pub weather: Vec<WeatherDesc>,
}

/// The whole weather report.
pub struct Weather {
    pub current: Current,
    pub daily: Vec<Daily>,
    pub hourly: Vec<Hourly>,
}

/// The icon images the panel can show.
#[derive(Clone, Copy, Debug, PartialEq, Eq, Structural)]
pub enum WeatherIcon {
    ClearSky,
    FewClouds,
    ScatteredClouds,
    BrokenClouds,
    ShowerRain,
    Rain,
    Thunderstorm,
    Snow,
    Mist,
    Alert,
}

/// The icon of a service icon code; day ("d") and night ("n") codes share
/// one image, unknown codes show the alert icon.
pub open spec fn icon_of(code: Seq<char>) -> WeatherIcon {
    if code == "01n"@ || code == "01d"@ {
        WeatherIcon::ClearSky
    } else if code == "02n"@ || code == "02d"@ {
        WeatherIcon::FewClouds
    } else if code == "03n"@ || code == "03d"@ {
        WeatherIcon::ScatteredClouds
    } else if code == "04n"@ || code == "04d"@ {
        WeatherIcon::BrokenClouds
    } else if code == "09n"@ || code == "09d"@ {
        WeatherIcon::ShowerRain
    } else if code == "10n"@ || code == "10d"@ {
        WeatherIcon::Rain
    } else if code == "11n"@ || code == "11d"@ {
        WeatherIcon::Thunderstorm
    } else if code == "13n"@ || code == "13d"@ {
        WeatherIcon::Snow
    } else if code == "50n"@ || code == "50d"@ {
        WeatherIcon::Mist
    } else {
        WeatherIcon::Alert
    }
}

/// Maps a service icon code to the icon to draw.
pub fn map_icon(icon: String) -> (r: WeatherIcon)
    ensures
        r == icon_of(icon@),
{
    let c = icon.as_str();
    if same_text(c, "01n") || same_text(c, "01d") {
        WeatherIcon::ClearSky
    } else if same_text(c, "02n") || same_text(c, "02d") {
        WeatherIcon::FewClouds
    } else if same_text(c, "03n") || same_text(c, "03d") {
        WeatherIcon::ScatteredClouds
    } else if same_text(c, "04n") || same_text(c, "04d") {
        WeatherIcon::BrokenClouds
    } else if same_text(c, "09n") || same_text(c, "09d") {
        WeatherIcon::ShowerRain
    } else if same_text(c, "10n") || same_text(c, "10d") {
        WeatherIcon::Rain
    } else if same_text(c, "11n") || same_text(c, "11d") {
        WeatherIcon::Thunderstorm
    } else if same_text(c, "13n") || same_text(c, "13d") {
        WeatherIcon::Snow
    } else if same_text(c, "50n") || same_text(c, "50d") {
        WeatherIcon::Mist
    } else {
        WeatherIcon::Alert
    }
}

/// Chinese description of a weather condition id.
pub open spec fn desc_of(id: u16) -> Seq<char> {
    if 200 <= id <= 233 {
        "雷雨"@
    } else if 300 <= id <= 322 {
        "细雨"@
    } else if id == 501 {
        "中雨"@
    } else if id == 500 || id == 520 {
        "小雨"@
    } else if id == 502 || id == 521 {
        "大雨"@
    } else if id == 503 || id == 504 || id == 522 || id == 531 {
        "暴雨"@
    } else if id == 600 || id == 620 {
        "小雪"@
    } else if id == 601 || id == 621 {
        "中雪"@
    } else if id == 602 || id == 622 {
        "大雪"@
    } else if 611 <= id <= 617 {
        "雨夹雪"@
    } else if id == 701 {
        "薄雾"@
    } else if id == 711 {
        "烟雾"@
    } else if id == 721 {
        "阴霾"@
    } else if id == 731 || id == 761 || id == 762 {
        "灰尘"@
    } else if id == 741 {
        "多雾"@
    } else if id == 751 {
        "风沙"@
    } else if id == 771 {
        "飑"@
    } else if id == 781 {
        "龙卷风"@
    } else if id == 800 {
        "晴天"@
    } else if id == 801 {
        "少云"@
    } else if id == 802 || id == 803 {
        "多云"@
    } else if id == 804 {
        "阴天"@
    } else {
        "未知"@
    }
}

fn desc_text(id: u16) -> (s: &'static str)
    ensures
        s@ == desc_of(id),
{
    if 200 <= id && id <= 233 {
        "雷雨"
    } else if 300 <= id && id <= 322 {
        "细雨"
    } else if id == 501 {
        "中雨"
    } else if id == 500 || id == 520 {
        "小雨"
    } else if id == 502 || id == 521 {
        "大雨"
    } else if id == 503 || id == 504 || id == 522 || id == 531 {
        "暴雨"
    } else if id == 600 || id == 620 {
        "小雪"
    } else if id == 601 || id == 621 {
        "中雪"
    } else if id == 602 || id == 622 {
        "大雪"
    } else if 611 <= id && id <= 617 {
        "雨夹雪"
    } else if id == 701 {
        "薄雾"
    } else if id == 711 {
        "烟雾"
    } else if id == 721 {
        "阴霾"
    } else if id == 731 || id == 761 || id == 762 {
        "灰尘"
    } else if id == 741 {
        "多雾"
    } else if id == 751 {
        "风沙"
    } else if id == 771 {
        "飑"
    } else if id == 781 {
        "龙卷风"
    } else if id == 800 {
        "晴天"
    } else if id == 801 {
        "少云"
    } else if id == 802 || id == 803 {
        "多云"
    } else if id == 804 {
        "阴天"
    } else {
        "未知"
    }
}

/// Maps a weather condition id to its Chinese description.
pub fn map_desc(id: u16) -> (s: String)
    ensures
        s@ == desc_of(id),
{
    String::from_str(desc_text(id))
}

/// A position on the screen, in pixels.
#[derive(Clone, Copy, Debug, PartialEq, Eq, Structural)]
pub struct Point {
    pub x: i32,
    pub y: i32,
}

/// What the current-conditions panel shows, with the names and positions
/// of its four elements.
pub struct CurrentView {
    pub icon: WeatherIcon,
    pub temp_text: String,
    pub desc_text: String,
    pub update_text: String,
    pub icon_name: &'static str,
    pub temp_name: &'static str,
    pub desc_name: &'static str,
    pub update_name: &'static str,
    pub icon_pos: Point,
    pub temp_pos: Point,
    pub desc_pos: Point,
    pub update_pos: Point,
}

/// The current temperature as the panel shows it: whole degrees clipped to
/// 0..=255 (an unsigned byte).
pub open spec fn shown_degrees(t: i32) -> nat {
    if t < 0 {
        0
    } else if t > 255 {
        255
    } else {
        t as nat
    }
}

/// "<degrees>℃".
pub open spec fn degrees_text(t: int) -> Seq<char> {
    signed_decimal(t) + "℃"@
}

/// The text and icon of the current-conditions panel. The first condition
/// of the report decides icon and description; the update time is the
/// report's timestamp in Beijing time.
pub fn current_weather_view(current: &Current) -> (v: CurrentView)
    requires
        current.weather@.len() > 0,
        in_calendar(current.dt),
    ensures
        v.icon == icon_of(current.weather@[0].icon@),
        v.temp_text@ == degrees_text(shown_degrees(current.temp) as int),
        v.desc_text@ == desc_of(current.weather@[0].id),
        v.update_text@ == "更新时间:"@ + stamp_text(
            local_month(current.dt as i64, BEIJING_OFFSET_SECS) as nat,
            local_day(current.dt as i64, BEIJING_OFFSET_SECS) as nat,
            local_hour(current.dt as i64, BEIJING_OFFSET_SECS) as nat,
            local_minute(current.dt as i64, BEIJING_OFFSET_SECS) as nat,
        ),
        v.icon_name@ == "icon:current:weather"@,
        v.temp_name@ == "temp:current:weather"@,
        v.desc_name@ == "desc:current:weather"@,
        v.update_name@ == "update_time:current:weather"@,
        v.icon_pos == (Point { x: 16, y: 16 }),
        v.temp_pos == (Point { x: 220, y: 80 }),
        v.desc_pos == (Point { x: 220, y: 140 }),
        v.update_pos == (Point { x: 80, y: 230 }),
{
    let first = &current.weather[0];
    let icon = map_icon(first.icon.clone());
    let degrees: i32 = if current.temp < 0 {
        0
    } else if current.temp > 255 {
        255
    } else {
        current.temp
    };
    let mut temp_text = String::new();
    push_signed_decimal(&mut temp_text, degrees);
    temp_text.append("℃");
    let f = beijing_fields(current.dt);
    CurrentView {
        icon,
        temp_text,
        desc_text: map_desc(first.id),
        update_text: update_time_text(f.month, f.day, f.hour, f.minute),
        icon_name: "icon:current:weather",
        temp_name: "temp:current:weather",
        desc_name: "desc:current:weather",
        update_name: "update_time:current:weather",
        icon_pos: Point { x: 16, y: 16 },
        temp_pos: Point { x: 220, y: 80 },
        desc_pos: Point { x: 220, y: 140 },
        update_pos: Point { x: 80, y: 230 },
    }
}

/// What one row of the daily forecast panel shows, with the names and
/// positions of its four elements.
pub struct DailyView {
    pub date_name: String,
    pub temp_name: String,
    pub icon_name: String,
    pub desc_name: String,
    pub date_text: String,
    pub temp_text: String,
    pub icon: WeatherIcon,
    pub desc_text: String,
    pub date_pos: Point,
    pub temp_pos: Point,
    pub icon_pos: Point,
    pub desc_pos: Point,
}

/// The baseline of the `i`-th row of the daily panel.
pub open spec fn daily_row_y(i: int) -> int {
    330 + 140 * i
}

/// "<max>℃/<min>℃".
pub open spec fn temp_range_text(max: int, min: int) -> Seq<char> {
    signed_decimal(max) + "℃/"@ + signed_decimal(min) + "℃"@
}

/// `v` is the `i`-th row of the daily panel, showing the day `d`.
pub open spec fn is_daily_view(v: DailyView, d: Daily, i: int) -> bool {
    let y = daily_row_y(i);
    &&& v.date_name@ == decimal(i as nat) + "_date:daily:weather"@
    &&& v.temp_name@ == decimal(i as nat) + "_temp:daily:weather"@
    &&& v.icon_name@ == decimal(i as nat) + "_icon:daily:weather"@
    &&& v.desc_name@ == decimal(i as nat) + "_desc:daily:weather"@
    &&& v.date_text@ == two_digits(local_month(d.dt as i64, BEIJING_OFFSET_SECS) as nat) + "月"@
        + two_digits(local_day(d.dt as i64, BEIJING_OFFSET_SECS) as nat) + "日"@
    &&& v.temp_text@ == temp_range_text(d.temp.max as int, d.temp.min as int)
    &&& v.icon == icon_of(d.weather@[0].icon@)
    &&& v.desc_text@ == desc_of(d.weather@[0].id)
    &&& v.date_pos.x == 110 && v.date_pos.y == y
    &&& v.temp_pos.x == 40 && v.temp_pos.y == y + 60
    &&& v.icon_pos.x == 40 && v.icon_pos.y == y - 40
    &&& v.desc_pos.x == 170 && v.desc_pos.y == y + 60
}

/// A day the daily panel can render: it has a condition and a timestamp in range.
pub open spec fn renderable_day(d: Daily) -> bool {
    d.weather@.len() > 0 && in_calendar(d.dt)
}

fn daily_view(d: &Daily, i: usize, y: i32) -> (v: DailyView)
    requires
        renderable_day(*d),
        y == daily_row_y(i as int),
        y + 60 <= i32::MAX,
    ensures
        is_daily_view(v, *d, i as int),
{
    let first = &d.weather[0];
    let f = beijing_fields(d.dt);
    let mut temp_text = String::new();
    push_signed_decimal(&mut temp_text, d.temp.max);
    temp_text.append("℃/");
    push_signed_decimal(&mut temp_text, d.temp.min);
    temp_text.append("℃");
    assert(temp_text@ =~= temp_range_text(d.temp.max as int, d.temp.min as int));
    DailyView {
        date_name: indexed_name(i as u64, "_date:daily:weather"),
        temp_name: indexed_name(i as u64, "_temp:daily:weather"),
        icon_name: indexed_name(i as u64, "_icon:daily:weather"),
        desc_name: indexed_name(i as u64, "_desc:daily:weather"),
        date_text: date_label(f.month, f.day),
        temp_text,
        icon: map_icon(first.icon.clone()),
        desc_text: map_desc(first.id),
        date_pos: Point { x: 110, y },
        temp_pos: Point { x: 40, y: y + 60 },
        icon_pos: Point { x: 40, y: y - 40 },
        desc_pos: Point { x: 170, y: y + 60 },
    }
}

/// The rows of the daily forecast panel, one per day of the report, each
/// 140 pixels below the one before.
pub fn daily_weather_views(daily: &Vec<Daily>) -> (v: Vec<DailyView>)
    requires
        forall|i: int| 0 <= i < daily@.len() ==> renderable_day(#[trigger] daily@[i]),
        daily_row_y(daily@.len() as int) <= i32::MAX,
    ensures
        v@.len() == daily@.len(),
        forall|i: int| 0 <= i < daily@.len() ==> is_daily_view(#[trigger] v@[i], daily@[i], i),
{
    let mut v: Vec<DailyView> = Vec::new();
    let mut y: i32 = 330;
    let mut i: usize = 0;
    while i < daily.len()
        invariant
            forall|k: int| 0 <= k < daily@.len() ==> renderable_day(#[trigger] daily@[k]),
            daily_row_y(daily@.len() as int) <= i32::MAX,
            i <= daily@.len(),
            y == daily_row_y(i as int),
            v@.len() == i,
            forall|k: int| 0 <= k < i ==> is_daily_view(#[trigger] v@[k], daily@[k], k),
        decreases daily@.len() - i,
    {
        let row = daily_view(&daily[i], i, y);
        v.push(row);
        y = y + 140;
        i = i + 1;
    }
    v
}

/// What one column of the hourly forecast strip shows, with the names and
/// positions of its three elements.
pub struct HourlyView {
    pub hour_name: String,
    pub icon_name: String,
    pub temp_name: String,
    pub hour_text: String,
    pub icon: WeatherIcon,
    pub temp_text: String,
    pub hour_pos: Point,
    pub icon_pos: Point,
    pub temp_pos: Point,
}

/// The left edge of the `i`-th column of the hourly strip.
pub open spec fn hourly_column_x(i: int) -> int {
    350 + 80 * i
}

/// The rightmost left edge a column of the hourly strip may have.
pub const HOURLY_RIGHT_EDGE: i32 = 1800;

/// The number of columns the strip shows of `n` forecast hours: columns are
/// added while their left edge stays within the right edge.
pub open spec fn hourly_count(n: nat) -> nat {
    if n < 19 {
        n
    } else {
        19
    }
}

/// `v` is the `i`-th column of the hourly strip, showing the hour `h`.
pub open spec fn is_hourly_view(v: HourlyView, h: Hourly, i: int) -> bool {
    let x = hourly_column_x(i);
    &&& v.hour_name@ == decimal(i as nat) + "_hour:hourly:weather"@
    &&& v.icon_name@ == decimal(i as nat) + "_icon:hourly:weather"@
    &&& v.temp_name@ == decimal(i as nat) + "_temp:hourly:weather"@
    &&& v.hour_text@ == two_digits(local_hour(h.dt as i64, BEIJING_OFFSET_SECS) as nat) + "时"@
    &&& v.icon == icon_of(h.weather@[0].icon@)
    &&& v.temp_text@ == degrees_text(h.temp as int)
    &&& v.hour_pos.x == x && v.hour_pos.y == 50
    &&& v.icon_pos.x == x && v.icon_pos.y == 66
    &&& v.temp_pos.x == x && v.temp_pos.y == 140
}

/// An hour the strip can render: it has a condition and a timestamp in range.
pub open spec fn renderable_hour(h: Hourly) -> bool {
    h.weather@.len() > 0 && in_calendar(h.dt)
}

fn hourly_view(h: &Hourly, i: usize, x: i32) -> (v: HourlyView)
    requires
        renderable_hour(*h),
        x == hourly_column_x(i as int),
    ensures
        is_hourly_view(v, *h, i as int),
{
    let first = &h.weather[0];
    let f = beijing_fields(h.dt);
    let mut temp_text = String::new();
    push_signed_decimal(&mut temp_text, h.temp);
    temp_text.append("℃");
    HourlyView {
        hour_name: indexed_name(i as u64, "_hour:hourly:weather"),
        icon_name: indexed_name(i as u64, "_icon:hourly:weather"),
        temp_name: indexed_name(i as u64, "_temp:hourly:weather"),
        hour_text: hour_label(f.hour),
        icon: map_icon(first.icon.clone()),
        temp_text,
        hour_pos: Point { x, y: 50 },
        icon_pos: Point { x, y: 66 },
        temp_pos: Point { x, y: 140 },
    }
}

/// The columns of the hourly strip: the first hours of the report, one
/// column every 80 pixels from x = 350, as long as a column starts within
/// x = 1800.
pub fn hourly_weather_views(hourly: &Vec<Hourly>) -> (v: Vec<HourlyView>)
    requires
        forall|i: int|
            0 <= i < hourly_count(hourly@.len()) ==> renderable_hour(#[trigger] hourly@[i]),
    ensures
        v@.len() == hourly_count(hourly@.len()),
        forall|i: int|
            0 <= i < v@.len() ==> is_hourly_view(#[trigger] v@[i], hourly@[i], i),
{
    let mut v: Vec<HourlyView> = Vec::new();
    let mut x: i32 = 350;
    let mut i: usize = 0;
    while i < hourly.len()
        invariant
            forall|k: int|
                0 <= k < hourly_count(hourly@.len()) ==> renderable_hour(#[trigger] hourly@[k]),
            i <= hourly@.len(),
            i <= 19,
            i < 19 || i == hourly_count(hourly@.len()),
            x == hourly_column_x(i as int),
            v@.len() == i,
            forall|k: int| 0 <= k < i ==> is_hourly_view(#[trigger] v@[k], hourly@[k], k),
        ensures
            v@.len() == hourly_count(hourly@.len()),
            forall|k: int| 0 <= k < v@.len() ==> is_hourly_view(#[trigger] v@[k], hourly@[k], k),
        decreases hourly@.len() - i,
    {
        if x > HOURLY_RIGHT_EDGE {
            break;
        }
        let column = hourly_view(&hourly[i], i, x);
        v.push(column);
        x = x + 80;
        i = i + 1;
    }
    v
}

/// Whether the element called `name` belongs to the panels redrawn every
/// hour (the current conditions and the hourly strip).
pub fn is_hourly_refreshed(name: &str) -> (r: bool)
    ensures
        r == (ends_with(name@, ":current:weather"@) || ends_with(name@, ":hourly:weather"@)),
{
    ends_with_text(name, ":current:weather") || ends_with_text(name, ":hourly:weather")
}

proof fn same_code_either_time(p: Seq<char>, night: Seq<char>, day: Seq<char>)
    requires
        night.len() == 3,
        day.len() == 3,
        night[0] == day[0],
        night[1] == day[1],
        night[2] == 'n',
        day[2] == 'd',
    ensures
        (p.push('n') == night || p.push('n') == day) == (p.push('d') == night || p.push('d') == day),
{
    if p.push('n') == night {
        assert(p =~= night.drop_last());
        assert(p.push('d') =~= day);
    }
    if p.push('d') == day {
        assert(p =~= day.drop_last());
        assert(p.push('n') =~= night);
    }
    if p.push('n') == day {
        assert(p.push('n').last() == day.last());
    }
    if p.push('d') == night {
        assert(p.push('d').last() == night.last());
    }
}

/// Day and night variants of an icon code show the same icon: for every
/// code stem, "<stem>d" and "<stem>n" map alike.
pub proof fn day_and_night_share_icons(p: Seq<char>)
    ensures
        icon_of(p.push('d')) == icon_of(p.push('n')),
{
        reveal_strlit("01n");
        reveal_strlit("01d");
        same_code_either_time(p, "01n"@, "01d"@);
        reveal_strlit("02n");
        reveal_strlit("02d");
        same_code_either_time(p, "02n"@, "02d"@);
        reveal_strlit("03n");
        reveal_strlit("03d");
        same_code_either_time(p, "03n"@, "03d"@);
        reveal_strlit("04n");
        reveal_strlit("04d");
        same_code_either_time(p, "04n"@, "04d"@);
        reveal_strlit("09n");
        reveal_strlit("09d");
        same_code_either_time(p, "09n"@, "09d"@);
        reveal_strlit("10n");
        reveal_strlit("10d");
        same_code_either_time(p, "10n"@, "10d"@);
        reveal_strlit("11n");
        reveal_strlit("11d");
        same_code_either_time(p, "11n"@, "11d"@);
        reveal_strlit("13n");
        reveal_strlit("13d");
        same_code_either_time(p, "13n"@, "13d"@);
        reveal_strlit("50n");
        reveal_strlit("50d");
        same_code_either_time(p, "50n"@, "50d"@);
}

/// Every column of the hourly strip starts within the right edge, and when
/// the report has more hours than fit, the next column would not.
pub proof fn hourly_strip_fits(n: nat)
    ensures
        forall|i: int| 0 <= i < hourly_count(n) ==> hourly_column_x(i) <= HOURLY_RIGHT_EDGE,
        hourly_count(n) <= n,
        n >= 19 ==> hourly_column_x(hourly_count(n) as int) > HOURLY_RIGHT_EDGE,
{
}

/// Rows of the daily panel never overlap: later rows lie at least one row
/// height (140 pixels) further down.
pub proof fn daily_rows_apart(i: int, j: int)
    requires
        0 <= i < j,
    ensures
        daily_row_y(j) - daily_row_y(i) >= 140,
{
}

proof fn suffix_of_longer_tail(p: Seq<char>, tail: Seq<char>, suffix: Seq<char>)
    requires
        suffix.len() <= tail.len(),
    ensures
        ends_with(p + tail, suffix) == ends_with(tail, suffix),
{
    let whole = p + tail;
    assert(whole.subrange(whole.len() - suffix.len(), whole.len() as int) =~= tail.subrange(
        tail.len() - suffix.len(),
        tail.len() as int,
    ));
}

/// The hourly refresh redraws exactly the current panel and the hourly
/// strip among the panels' families: every element name of the current
/// panel and of an hourly column is selected, and no element name of a
/// daily row is.
pub proof fn hourly_refresh_selects_the_strip(i: nat)
    ensures
        ends_with("icon:current:weather"@, ":current:weather"@),
        ends_with("temp:current:weather"@, ":current:weather"@),
        ends_with("desc:current:weather"@, ":current:weather"@),
        ends_with("update_time:current:weather"@, ":current:weather"@),
        ends_with(decimal(i) + "_hour:hourly:weather"@, ":hourly:weather"@),
        ends_with(decimal(i) + "_icon:hourly:weather"@, ":hourly:weather"@),
        ends_with(decimal(i) + "_temp:hourly:weather"@, ":hourly:weather"@),
        !ends_with(decimal(i) + "_date:daily:weather"@, ":hourly:weather"@),
        !ends_with(decimal(i) + "_date:daily:weather"@, ":current:weather"@),
        !ends_with(decimal(i) + "_temp:daily:weather"@, ":hourly:weather"@),
        !ends_with(decimal(i) + "_temp:daily:weather"@, ":current:weather"@),
        !ends_with(decimal(i) + "_icon:daily:weather"@, ":hourly:weather"@),
        !ends_with(decimal(i) + "_icon:daily:weather"@, ":current:weather"@),
        !ends_with(decimal(i) + "_desc:daily:weather"@, ":hourly:weather"@),
        !ends_with(decimal(i) + "_desc:daily:weather"@, ":current:weather"@),
{
    let d = decimal(i);
    reveal_strlit("icon:current:weather");
    reveal_strlit("temp:current:weather");
    reveal_strlit("desc:current:weather");
    reveal_strlit("update_time:current:weather");
    reveal_strlit(":hourly:weather");
    reveal_strlit(":current:weather");
    reveal_strlit("_hour:hourly:weather");
    reveal_strlit("_icon:hourly:weather");
    reveal_strlit("_temp:hourly:weather");
    reveal_strlit("_date:daily:weather");
    reveal_strlit("_temp:daily:weather");
    reveal_strlit("_icon:daily:weather");
    reveal_strlit("_desc:daily:weather");
    let hourly = ":hourly:weather"@;
    let current = ":current:weather"@;
    let hour_tails = seq!["_hour:hourly:weather"@, "_icon:hourly:weather"@, "_temp:hourly:weather"@];
    let day_tails = seq![
        "_date:daily:weather"@,
        "_temp:daily:weather"@,
        "_icon:daily:weather"@,
        "_desc:daily:weather"@,
    ];
    assert forall|k: int| 0 <= k < 3 implies ends_with(d + #[trigger] hour_tails[k], hourly) by {
        let t = hour_tails[k];
        suffix_of_longer_tail(d, t, hourly);
        assert(t.subrange(t.len() - hourly.len(), t.len() as int) =~= hourly);
    }
    assert forall|k: int| 0 <= k < 4 implies !ends_with(d + #[trigger] day_tails[k], hourly)
        && !ends_with(d + day_tails[k], current) by {
        let t = day_tails[k];
        suffix_of_longer_tail(d, t, hourly);
        suffix_of_longer_tail(d, t, current);
        assert(t.subrange(t.len() - hourly.len(), t.len() as int)[0] != hourly[0]);
        assert(t.subrange(t.len() - current.len(), t.len() as int)[0] != current[0]);
    }
    let current_names = seq![
        "icon:current:weather"@,
        "temp:current:weather"@,
        "desc:current:weather"@,
        "update_time:current:weather"@,
    ];
    assert forall|k: int| 0 <= k < 4 implies ends_with(#[trigger] current_names[k], current) by {
        let t = current_names[k];
        assert(t.subrange(t.len() - current.len(), t.len() as int) =~= current);
    }
    assert(ends_with(current_names[0], current));
    assert(ends_with(current_names[1], current));
    assert(ends_with(current_names[2], current));
    assert(ends_with(current_names[3], current));
    assert(ends_with(d + hour_tails[0], hourly));
    assert(ends_with(d + hour_tails[1], hourly));
    assert(ends_with(d + hour_tails[2], hourly));
    assert(!ends_with(d + day_tails[0], hourly) && !ends_with(d + day_tails[0], current));
    assert(!ends_with(d + day_tails[1], hourly) && !ends_with(d + day_tails[1], current));
    assert(!ends_with(d + day_tails[2], hourly) && !ends_with(d + day_tails[2], current));
    assert(!ends_with(d + day_tails[3], hourly) && !ends_with(d + day_tails[3], current));
}

/// The descriptions of the table are pairwise different texts.
proof fn descriptions_distinct()
    ensures
        "雷雨"@ != "细雨"@,
        "雷雨"@ != "中雨"@,
        "雷雨"@ != "小雨"@,
        "雷雨"@ != "大雨"@,
        "雷雨"@ != "暴雨"@,
        "雷雨"@ != "小雪"@,
        "雷雨"@ != "中雪"@,
        "雷雨"@ != "大雪"@,
        "雷雨"@ != "雨夹雪"@,
        "雷雨"@ != "薄雾"@,
        "雷雨"@ != "烟雾"@,
        "雷雨"@ != "阴霾"@,
        "雷雨"@ != "灰尘"@,
        "雷雨"@ != "多雾"@,
        "雷雨"@ != "风沙"@,
        "雷雨"@ != "飑"@,
        "雷雨"@ != "龙卷风"@,
        "雷雨"@ != "晴天"@,
        "雷雨"@ != "少云"@,
        "雷雨"@ != "多云"@,
        "雷雨"@ != "阴天"@,
        "雷雨"@ != "未知"@,
        "细雨"@ != "中雨"@,
        "细雨"@ != "小雨"@,
        "细雨"@ != "大雨"@,
        "细雨"@ != "暴雨"@,
        "细雨"@ != "小雪"@,
        "细雨"@ != "中雪"@,
        "细雨"@ != "大雪"@,
        "细雨"@ != "雨夹雪"@,
        "细雨"@ != "薄雾"@,
        "细雨"@ != "烟雾"@,
        "细雨"@ != "阴霾"@,
        "细雨"@ != "灰尘"@,
        "细雨"@ != "多雾"@,
        "细雨"@ != "风沙"@,
        "细雨"@ != "飑"@,
        "细雨"@ != "龙卷风"@,
        "细雨"@ != "晴天"@,
        "细雨"@ != "少云"@,
        "细雨"@ != "多云"@,
        "细雨"@ != "阴天"@,
        "细雨"@ != "未知"@,
        "中雨"@ != "小雨"@,
        "中雨"@ != "大雨"@,
        "中雨"@ != "暴雨"@,
        "中雨"@ != "小雪"@,
        "中雨"@ != "中雪"@,
        "中雨"@ != "大雪"@,
        "中雨"@ != "雨夹雪"@,
        "中雨"@ != "薄雾"@,
        "中雨"@ != "烟雾"@,
        "中雨"@ != "阴霾"@,
        "中雨"@ != "灰尘"@,
        "中雨"@ != "多雾"@,
        "中雨"@ != "风沙"@,
        "中雨"@ != "飑"@,
        "中雨"@ != "龙卷风"@,
        "中雨"@ != "晴天"@,
        "中雨"@ != "少云"@,
        "中雨"@ != "多云"@,
        "中雨"@ != "阴天"@,
        "中雨"@ != "未知"@,
        "小雨"@ != "大雨"@,
        "小雨"@ != "暴雨"@,
        "小雨"@ != "小雪"@,
        "小雨"@ != "中雪"@,
        "小雨"@ != "大雪"@,
        "小雨"@ != "雨夹雪"@,
        "小雨"@ != "薄雾"@,
        "小雨"@ != "烟雾"@,
        "小雨"@ != "阴霾"@,
        "小雨"@ != "灰尘"@,
        "小雨"@ != "多雾"@,
        "小雨"@ != "风沙"@,
        "小雨"@ != "飑"@,
        "小雨"@ != "龙卷风"@,
        "小雨"@ != "晴天"@,
        "小雨"@ != "少云"@,
        "小雨"@ != "多云"@,
        "小雨"@ != "阴天"@,
        "小雨"@ != "未知"@,
        "大雨"@ != "暴雨"@,
        "大雨"@ != "小雪"@,
        "大雨"@ != "中雪"@,
        "大雨"@ != "大雪"@,
        "大雨"@ != "雨夹雪"@,
        "大雨"@ != "薄雾"@,
        "大雨"@ != "烟雾"@,
        "大雨"@ != "阴霾"@,
        "大雨"@ != "灰尘"@,
        "大雨"@ != "多雾"@,
        "大雨"@ != "风沙"@,
        "大雨"@ != "飑"@,
        "大雨"@ != "龙卷风"@,
        "大雨"@ != "晴天"@,
        "大雨"@ != "少云"@,
        "大雨"@ != "多云"@,
        "大雨"@ != "阴天"@,
        "大雨"@ != "未知"@,
        "暴雨"@ != "小雪"@,
        "暴雨"@ != "中雪"@,
        "暴雨"@ != "大雪"@,
        "暴雨"@ != "雨夹雪"@,
        "暴雨"@ != "薄雾"@,
        "暴雨"@ != "烟雾"@,
        "暴雨"@ != "阴霾"@,
        "暴雨"@ != "灰尘"@,
        "暴雨"@ != "多雾"@,
        "暴雨"@ != "风沙"@,
        "暴雨"@ != "飑"@,
        "暴雨"@ != "龙卷风"@,
        "暴雨"@ != "晴天"@,
        "暴雨"@ != "少云"@,
        "暴雨"@ != "多云"@,
        "暴雨"@ != "阴天"@,
        "暴雨"@ != "未知"@,
        "小雪"@ != "中雪"@,
        "小雪"@ != "大雪"@,
        "小雪"@ != "雨夹雪"@,
        "小雪"@ != "薄雾"@,
        "小雪"@ != "烟雾"@,
        "小雪"@ != "阴霾"@,
        "小雪"@ != "灰尘"@,
        "小雪"@ != "多雾"@,
        "小雪"@ != "风沙"@,
        "小雪"@ != "飑"@,
        "小雪"@ != "龙卷风"@,
        "小雪"@ != "晴天"@,
        "小雪"@ != "少云"@,
        "小雪"@ != "多云"@,
        "小雪"@ != "阴天"@,
        "小雪"@ != "未知"@,
        "中雪"@ != "大雪"@,
        "中雪"@ != "雨夹雪"@,
        "中雪"@ != "薄雾"@,
        "中雪"@ != "烟雾"@,
        "中雪"@ != "阴霾"@,
        "中雪"@ != "灰尘"@,
        "中雪"@ != "多雾"@,
        "中雪"@ != "风沙"@,
        "中雪"@ != "飑"@,
        "中雪"@ != "龙卷风"@,
        "中雪"@ != "晴天"@,
        "中雪"@ != "少云"@,
        "中雪"@ != "多云"@,
        "中雪"@ != "阴天"@,
        "中雪"@ != "未知"@,
        "大雪"@ != "雨夹雪"@,
        "大雪"@ != "薄雾"@,
        "大雪"@ != "烟雾"@,
        "大雪"@ != "阴霾"@,
        "大雪"@ != "灰尘"@,
        "大雪"@ != "多雾"@,
        "大雪"@ != "风沙"@,
        "大雪"@ != "飑"@,
        "大雪"@ != "龙卷风"@,
        "大雪"@ != "晴天"@,
        "大雪"@ != "少云"@,
        "大雪"@ != "多云"@,
        "大雪"@ != "阴天"@,
        "大雪"@ != "未知"@,
        "雨夹雪"@ != "薄雾"@,
        "雨夹雪"@ != "烟雾"@,
        "雨夹雪"@ != "阴霾"@,
        "雨夹雪"@ != "灰尘"@,
        "雨夹雪"@ != "多雾"@,
        "雨夹雪"@ != "风沙"@,
        "雨夹雪"@ != "飑"@,
        "雨夹雪"@ != "龙卷风"@,
        "雨夹雪"@ != "晴天"@,
        "雨夹雪"@ != "少云"@,
        "雨夹雪"@ != "多云"@,
        "雨夹雪"@ != "阴天"@,
        "雨夹雪"@ != "未知"@,
        "薄雾"@ != "烟雾"@,
        "薄雾"@ != "阴霾"@,
        "薄雾"@ != "灰尘"@,
        "薄雾"@ != "多雾"@,
        "薄雾"@ != "风沙"@,
        "薄雾"@ != "飑"@,
        "薄雾"@ != "龙卷风"@,
        "薄雾"@ != "晴天"@,
        "薄雾"@ != "少云"@,
        "薄雾"@ != "多云"@,
        "薄雾"@ != "阴天"@,
        "薄雾"@ != "未知"@,
        "烟雾"@ != "阴霾"@,
        "烟雾"@ != "灰尘"@,
        "烟雾"@ != "多雾"@,
        "烟雾"@ != "风沙"@,
        "烟雾"@ != "飑"@,
        "烟雾"@ != "龙卷风"@,
        "烟雾"@ != "晴天"@,
        "烟雾"@ != "少云"@,
        "烟雾"@ != "多云"@,
        "烟雾"@ != "阴天"@,
        "烟雾"@ != "未知"@,
        "阴霾"@ != "灰尘"@,
        "阴霾"@ != "多雾"@,
        "阴霾"@ != "风沙"@,
        "阴霾"@ != "飑"@,
        "阴霾"@ != "龙卷风"@,
        "阴霾"@ != "晴天"@,
        "阴霾"@ != "少云"@,
        "阴霾"@ != "多云"@,
        "阴霾"@ != "阴天"@,
        "阴霾"@ != "未知"@,
        "灰尘"@ != "多雾"@,
        "灰尘"@ != "风沙"@,
        "灰尘"@ != "飑"@,
        "灰尘"@ != "龙卷风"@,
        "灰尘"@ != "晴天"@,
        "灰尘"@ != "少云"@,
        "灰尘"@ != "多云"@,
        "灰尘"@ != "阴天"@,
        "灰尘"@ != "未知"@,
        "多雾"@ != "风沙"@,
        "多雾"@ != "飑"@,
        "多雾"@ != "龙卷风"@,
        "多雾"@ != "晴天"@,
        "多雾"@ != "少云"@,
        "多雾"@ != "多云"@,
        "多雾"@ != "阴天"@,
        "多雾"@ != "未知"@,
        "风沙"@ != "飑"@,
        "风沙"@ != "龙卷风"@,
        "风沙"@ != "晴天"@,
        "风沙"@ != "少云"@,
        "风沙"@ != "多云"@,
        "风沙"@ != "阴天"@,
        "风沙"@ != "未知"@,
        "飑"@ != "龙卷风"@,
        "飑"@ != "晴天"@,
        "飑"@ != "少云"@,
        "飑"@ != "多云"@,
        "飑"@ != "阴天"@,
        "飑"@ != "未知"@,
        "龙卷风"@ != "晴天"@,
        "龙卷风"@ != "少云"@,
        "龙卷风"@ != "多云"@,
        "龙卷风"@ != "阴天"@,
        "龙卷风"@ != "未知"@,
        "晴天"@ != "少云"@,
        "晴天"@ != "多云"@,
        "晴天"@ != "阴天"@,
        "晴天"@ != "未知"@,
        "少云"@ != "多云"@,
        "少云"@ != "阴天"@,
        "少云"@ != "未知"@,
        "多云"@ != "阴天"@,
        "多云"@ != "未知"@,
        "阴天"@ != "未知"@,
{
    reveal_strlit("雷雨");
    reveal_strlit("细雨");
    reveal_strlit("中雨");
    reveal_strlit("小雨");
    reveal_strlit("大雨");
    reveal_strlit("暴雨");
    reveal_strlit("小雪");
    reveal_strlit("中雪");
    reveal_strlit("大雪");
    reveal_strlit("雨夹雪");
    reveal_strlit("薄雾");
    reveal_strlit("烟雾");
    reveal_strlit("阴霾");
    reveal_strlit("灰尘");
    reveal_strlit("多雾");
    reveal_strlit("风沙");
    reveal_strlit("飑");
    reveal_strlit("龙卷风");
    reveal_strlit("晴天");
    reveal_strlit("少云");
    reveal_strlit("多云");
    reveal_strlit("阴天");
    reveal_strlit("未知");
    assert("雷雨"@ != "细雨"@) by { assert("雷雨"@[0] != "细雨"@[0]); }
    assert("雷雨"@ != "中雨"@) by { assert("雷雨"@[0] != "中雨"@[0]); }
    assert("雷雨"@ != "小雨"@) by { assert("雷雨"@[0] != "小雨"@[0]); }
    assert("雷雨"@ != "大雨"@) by { assert("雷雨"@[0] != "大雨"@[0]); }
    assert("雷雨"@ != "暴雨"@) by { assert("雷雨"@[0] != "暴雨"@[0]); }
    assert("雷雨"@ != "小雪"@) by { assert("雷雨"@[0] != "小雪"@[0]); }
    assert("雷雨"@ != "中雪"@) by { assert("雷雨"@[0] != "中雪"@[0]); }
    assert("雷雨"@ != "大雪"@) by { assert("雷雨"@[0] != "大雪"@[0]); }
    assert("雷雨"@ != "雨夹雪"@) by { assert("雷雨"@.len() != "雨夹雪"@.len()); }
    assert("雷雨"@ != "薄雾"@) by { assert("雷雨"@[0] != "薄雾"@[0]); }
    assert("雷雨"@ != "烟雾"@) by { assert("雷雨"@[0] != "烟雾"@[0]); }
    assert("雷雨"@ != "阴霾"@) by { assert("雷雨"@[0] != "阴霾"@[0]); }
    assert("雷雨"@ != "灰尘"@) by { assert("雷雨"@[0] != "灰尘"@[0]); }
    assert("雷雨"@ != "多雾"@) by { assert("雷雨"@[0] != "多雾"@[0]); }
    assert("雷雨"@ != "风沙"@) by { assert("雷雨"@[0] != "风沙"@[0]); }
    assert("雷雨"@ != "飑"@) by { assert("雷雨"@.len() != "飑"@.len()); }
    assert("雷雨"@ != "龙卷风"@) by { assert("雷雨"@.len() != "龙卷风"@.len()); }
    assert("雷雨"@ != "晴天"@) by { assert("雷雨"@[0] != "晴天"@[0]); }
    assert("雷雨"@ != "少云"@) by { assert("雷雨"@[0] != "少云"@[0]); }
    assert("雷雨"@ != "多云"@) by { assert("雷雨"@[0] != "多云"@[0]); }
    assert("雷雨"@ != "阴天"@) by { assert("雷雨"@[0] != "阴天"@[0]); }
    assert("雷雨"@ != "未知"@) by { assert("雷雨"@[0] != "未知"@[0]); }
    assert("细雨"@ != "中雨"@) by { assert("细雨"@[0] != "中雨"@[0]); }
    assert("细雨"@ != "小雨"@) by { assert("细雨"@[0] != "小雨"@[0]); }
    assert("细雨"@ != "大雨"@) by { assert("细雨"@[0] != "大雨"@[0]); }
    assert("细雨"@ != "暴雨"@) by { assert("细雨"@[0] != "暴雨"@[0]); }
    assert("细雨"@ != "小雪"@) by { assert("细雨"@[0] != "小雪"@[0]); }
    assert("细雨"@ != "中雪"@) by { assert("细雨"@[0] != "中雪"@[0]); }
    assert("细雨"@ != "大雪"@) by { assert("细雨"@[0] != "大雪"@[0]); }
    assert("细雨"@ != "雨夹雪"@) by { assert("细雨"@.len() != "雨夹雪"@.len()); }
    assert("细雨"@ != "薄雾"@) by { assert("细雨"@[0] != "薄雾"@[0]); }
    assert("细雨"@ != "烟雾"@) by { assert("细雨"@[0] != "烟雾"@[0]); }
    assert("细雨"@ != "阴霾"@) by { assert("细雨"@[0] != "阴霾"@[0]); }
    assert("细雨"@ != "灰尘"@) by { assert("细雨"@[0] != "灰尘"@[0]); }
    assert("细雨"@ != "多雾"@) by { assert("细雨"@[0] != "多雾"@[0]); }
    assert("细雨"@ != "风沙"@) by { assert("细雨"@[0] != "风沙"@[0]); }
    assert("细雨"@ != "飑"@) by { assert("细雨"@.len() != "飑"@.len()); }
    assert("细雨"@ != "龙卷风"@) by { assert("细雨"@.len() != "龙卷风"@.len()); }
    assert("细雨"@ != "晴天"@) by { assert("细雨"@[0] != "晴天"@[0]); }
    assert("细雨"@ != "少云"@) by { assert("细雨"@[0] != "少云"@[0]); }
    assert("细雨"@ != "多云"@) by { assert("细雨"@[0] != "多云"@[0]); }
    assert("细雨"@ != "阴天"@) by { assert("细雨"@[0] != "阴天"@[0]); }
    assert("细雨"@ != "未知"@) by { assert("细雨"@[0] != "未知"@[0]); }
    assert("中雨"@ != "小雨"@) by { assert("中雨"@[0] != "小雨"@[0]); }
    assert("中雨"@ != "大雨"@) by { assert("中雨"@[0] != "大雨"@[0]); }
    assert("中雨"@ != "暴雨"@) by { assert("中雨"@[0] != "暴雨"@[0]); }
    assert("中雨"@ != "小雪"@) by { assert("中雨"@[0] != "小雪"@[0]); }
    assert("中雨"@ != "中雪"@) by { assert("中雨"@[1] != "中雪"@[1]); }
    assert("中雨"@ != "大雪"@) by { assert("中雨"@[0] != "大雪"@[0]); }
    assert("中雨"@ != "雨夹雪"@) by { assert("中雨"@.len() != "雨夹雪"@.len()); }
    assert("中雨"@ != "薄雾"@) by { assert("中雨"@[0] != "薄雾"@[0]); }
    assert("中雨"@ != "烟雾"@) by { assert("中雨"@[0] != "烟雾"@[0]); }
    assert("中雨"@ != "阴霾"@) by { assert("中雨"@[0] != "阴霾"@[0]); }
    assert("中雨"@ != "灰尘"@) by { assert("中雨"@[0] != "灰尘"@[0]); }
    assert("中雨"@ != "多雾"@) by { assert("中雨"@[0] != "多雾"@[0]); }
    assert("中雨"@ != "风沙"@) by { assert("中雨"@[0] != "风沙"@[0]); }
    assert("中雨"@ != "飑"@) by { assert("中雨"@.len() != "飑"@.len()); }
    assert("中雨"@ != "龙卷风"@) by { assert("中雨"@.len() != "龙卷风"@.len()); }
    assert("中雨"@ != "晴天"@) by { assert("中雨"@[0] != "晴天"@[0]); }
    assert("中雨"@ != "少云"@) by { assert("中雨"@[0] != "少云"@[0]); }
    assert("中雨"@ != "多云"@) by { assert("中雨"@[0] != "多云"@[0]); }
    assert("中雨"@ != "阴天"@) by { assert("中雨"@[0] != "阴天"@[0]); }
    assert("中雨"@ != "未知"@) by { assert("中雨"@[0] != "未知"@[0]); }
    assert("小雨"@ != "大雨"@) by { assert("小雨"@[0] != "大雨"@[0]); }
    assert("小雨"@ != "暴雨"@) by { assert("小雨"@[0] != "暴雨"@[0]); }
    assert("小雨"@ != "小雪"@) by { assert("小雨"@[1] != "小雪"@[1]); }
    assert("小雨"@ != "中雪"@) by { assert("小雨"@[0] != "中雪"@[0]); }
    assert("小雨"@ != "大雪"@) by { assert("小雨"@[0] != "大雪"@[0]); }
    assert("小雨"@ != "雨夹雪"@) by { assert("小雨"@.len() != "雨夹雪"@.len()); }
    assert("小雨"@ != "薄雾"@) by { assert("小雨"@[0] != "薄雾"@[0]); }
    assert("小雨"@ != "烟雾"@) by { assert("小雨"@[0] != "烟雾"@[0]); }
    assert("小雨"@ != "阴霾"@) by { assert("小雨"@[0] != "阴霾"@[0]); }
    assert("小雨"@ != "灰尘"@) by { assert("小雨"@[0] != "灰尘"@[0]); }
    assert("小雨"@ != "多雾"@) by { assert("小雨"@[0] != "多雾"@[0]); }
    assert("小雨"@ != "风沙"@) by { assert("小雨"@[0] != "风沙"@[0]); }
    assert("小雨"@ != "飑"@) by { assert("小雨"@.len() != "飑"@.len()); }
    assert("小雨"@ != "龙卷风"@) by { assert("小雨"@.len() != "龙卷风"@.len()); }
    assert("小雨"@ != "晴天"@) by { assert("小雨"@[0] != "晴天"@[0]); }
    assert("小雨"@ != "少云"@) by { assert("小雨"@[0] != "少云"@[0]); }
    assert("小雨"@ != "多云"@) by { assert("小雨"@[0] != "多云"@[0]); }
    assert("小雨"@ != "阴天"@) by { assert("小雨"@[0] != "阴天"@[0]); }
    assert("小雨"@ != "未知"@) by { assert("小雨"@[0] != "未知"@[0]); }
    assert("大雨"@ != "暴雨"@) by { assert("大雨"@[0] != "暴雨"@[0]); }
    assert("大雨"@ != "小雪"@) by { assert("大雨"@[0] != "小雪"@[0]); }
    assert("大雨"@ != "中雪"@) by { assert("大雨"@[0] != "中雪"@[0]); }
    assert("大雨"@ != "大雪"@) by { assert("大雨"@[1] != "大雪"@[1]); }
    assert("大雨"@ != "雨夹雪"@) by { assert("大雨"@.len() != "雨夹雪"@.len()); }
    assert("大雨"@ != "薄雾"@) by { assert("大雨"@[0] != "薄雾"@[0]); }
    assert("大雨"@ != "烟雾"@) by { assert("大雨"@[0] != "烟雾"@[0]); }
    assert("大雨"@ != "阴霾"@) by { assert("大雨"@[0] != "阴霾"@[0]); }
    assert("大雨"@ != "灰尘"@) by { assert("大雨"@[0] != "灰尘"@[0]); }
    assert("大雨"@ != "多雾"@) by { assert("大雨"@[0] != "多雾"@[0]); }
    assert("大雨"@ != "风沙"@) by { assert("大雨"@[0] != "风沙"@[0]); }
    assert("大雨"@ != "飑"@) by { assert("大雨"@.len() != "飑"@.len()); }
    assert("大雨"@ != "龙卷风"@) by { assert("大雨"@.len() != "龙卷风"@.len()); }
    assert("大雨"@ != "晴天"@) by { assert("大雨"@[0] != "晴天"@[0]); }
    assert("大雨"@ != "少云"@) by { assert("大雨"@[0] != "少云"@[0]); }
    assert("大雨"@ != "多云"@) by { assert("大雨"@[0] != "多云"@[0]); }
    assert("大雨"@ != "阴天"@) by { assert("大雨"@[0] != "阴天"@[0]); }
    assert("大雨"@ != "未知"@) by { assert("大雨"@[0] != "未知"@[0]); }
    assert("暴雨"@ != "小雪"@) by { assert("暴雨"@[0] != "小雪"@[0]); }
    assert("暴雨"@ != "中雪"@) by { assert("暴雨"@[0] != "中雪"@[0]); }
    assert("暴雨"@ != "大雪"@) by { assert("暴雨"@[0] != "大雪"@[0]); }
    assert("暴雨"@ != "雨夹雪"@) by { assert("暴雨"@.len() != "雨夹雪"@.len()); }
    assert("暴雨"@ != "薄雾"@) by { assert("暴雨"@[0] != "薄雾"@[0]); }
    assert("暴雨"@ != "烟雾"@) by { assert("暴雨"@[0] != "烟雾"@[0]); }
    assert("暴雨"@ != "阴霾"@) by { assert("暴雨"@[0] != "阴霾"@[0]); }
    assert("暴雨"@ != "灰尘"@) by { assert("暴雨"@[0] != "灰尘"@[0]); }
    assert("暴雨"@ != "多雾"@) by { assert("暴雨"@[0] != "多雾"@[0]); }
    assert("暴雨"@ != "风沙"@) by { assert("暴雨"@[0] != "风沙"@[0]); }
    assert("暴雨"@ != "飑"@) by { assert("暴雨"@.len() != "飑"@.len()); }
    assert("暴雨"@ != "龙卷风"@) by { assert("暴雨"@.len() != "龙卷风"@.len()); }
    assert("暴雨"@ != "晴天"@) by { assert("暴雨"@[0] != "晴天"@[0]); }
    assert("暴雨"@ != "少云"@) by { assert("暴雨"@[0] != "少云"@[0]); }
    assert("暴雨"@ != "多云"@) by { assert("暴雨"@[0] != "多云"@[0]); }
    assert("暴雨"@ != "阴天"@) by { assert("暴雨"@[0] != "阴天"@[0]); }
    assert("暴雨"@ != "未知"@) by { assert("暴雨"@[0] != "未知"@[0]); }
    assert("小雪"@ != "中雪"@) by { assert("小雪"@[0] != "中雪"@[0]); }
    assert("小雪"@ != "大雪"@) by { assert("小雪"@[0] != "大雪"@[0]); }
    assert("小雪"@ != "雨夹雪"@) by { assert("小雪"@.len() != "雨夹雪"@.len()); }
    assert("小雪"@ != "薄雾"@) by { assert("小雪"@[0] != "薄雾"@[0]); }
    assert("小雪"@ != "烟雾"@) by { assert("小雪"@[0] != "烟雾"@[0]); }
    assert("小雪"@ != "阴霾"@) by { assert("小雪"@[0] != "阴霾"@[0]); }
    assert("小雪"@ != "灰尘"@) by { assert("小雪"@[0] != "灰尘"@[0]); }
    assert("小雪"@ != "多雾"@) by { assert("小雪"@[0] != "多雾"@[0]); }
    assert("小雪"@ != "风沙"@) by { assert("小雪"@[0] != "风沙"@[0]); }
    assert("小雪"@ != "飑"@) by { assert("小雪"@.len() != "飑"@.len()); }
    assert("小雪"@ != "龙卷风"@) by { assert("小雪"@.len() != "龙卷风"@.len()); }
    assert("小雪"@ != "晴天"@) by { assert("小雪"@[0] != "晴天"@[0]); }
    assert("小雪"@ != "少云"@) by { assert("小雪"@[0] != "少云"@[0]); }
    assert("小雪"@ != "多云"@) by { assert("小雪"@[0] != "多云"@[0]); }
    assert("小雪"@ != "阴天"@) by { assert("小雪"@[0] != "阴天"@[0]); }
    assert("小雪"@ != "未知"@) by { assert("小雪"@[0] != "未知"@[0]); }
    assert("中雪"@ != "大雪"@) by { assert("中雪"@[0] != "大雪"@[0]); }
    assert("中雪"@ != "雨夹雪"@) by { assert("中雪"@.len() != "雨夹雪"@.len()); }
    assert("中雪"@ != "薄雾"@) by { assert("中雪"@[0] != "薄雾"@[0]); }
    assert("中雪"@ != "烟雾"@) by { assert("中雪"@[0] != "烟雾"@[0]); }
    assert("中雪"@ != "阴霾"@) by { assert("中雪"@[0] != "阴霾"@[0]); }
    assert("中雪"@ != "灰尘"@) by { assert("中雪"@[0] != "灰尘"@[0]); }
    assert("中雪"@ != "多雾"@) by { assert("中雪"@[0] != "多雾"@[0]); }
    assert("中雪"@ != "风沙"@) by { assert("中雪"@[0] != "风沙"@[0]); }
    assert("中雪"@ != "飑"@) by { assert("中雪"@.len() != "飑"@.len()); }
    assert("中雪"@ != "龙卷风"@) by { assert("中雪"@.len() != "龙卷风"@.len()); }
    assert("中雪"@ != "晴天"@) by { assert("中雪"@[0] != "晴天"@[0]); }
    assert("中雪"@ != "少云"@) by { assert("中雪"@[0] != "少云"@[0]); }
    assert("中雪"@ != "多云"@) by { assert("中雪"@[0] != "多云"@[0]); }
    assert("中雪"@ != "阴天"@) by { assert("中雪"@[0] != "阴天"@[0]); }
    assert("中雪"@ != "未知"@) by { assert("中雪"@[0] != "未知"@[0]); }
    assert("大雪"@ != "雨夹雪"@) by { assert("大雪"@.len() != "雨夹雪"@.len()); }
    assert("大雪"@ != "薄雾"@) by { assert("大雪"@[0] != "薄雾"@[0]); }
    assert("大雪"@ != "烟雾"@) by { assert("大雪"@[0] != "烟雾"@[0]); }
    assert("大雪"@ != "阴霾"@) by { assert("大雪"@[0] != "阴霾"@[0]); }
    assert("大雪"@ != "灰尘"@) by { assert("大雪"@[0] != "灰尘"@[0]); }
    assert("大雪"@ != "多雾"@) by { assert("大雪"@[0] != "多雾"@[0]); }
    assert("大雪"@ != "风沙"@) by { assert("大雪"@[0] != "风沙"@[0]); }
    assert("大雪"@ != "飑"@) by { assert("大雪"@.len() != "飑"@.len()); }
    assert("大雪"@ != "龙卷风"@) by { assert("大雪"@.len() != "龙卷风"@.len()); }
    assert("大雪"@ != "晴天"@) by { assert("大雪"@[0] != "晴天"@[0]); }
    assert("大雪"@ != "少云"@) by { assert("大雪"@[0] != "少云"@[0]); }
    assert("大雪"@ != "多云"@) by { assert("大雪"@[0] != "多云"@[0]); }
    assert("大雪"@ != "阴天"@) by { assert("大雪"@[0] != "阴天"@[0]); }
    assert("大雪"@ != "未知"@) by { assert("大雪"@[0] != "未知"@[0]); }
    assert("雨夹雪"@ != "薄雾"@) by { assert("雨夹雪"@.len() != "薄雾"@.len()); }
    assert("雨夹雪"@ != "烟雾"@) by { assert("雨夹雪"@.len() != "烟雾"@.len()); }
    assert("雨夹雪"@ != "阴霾"@) by { assert("雨夹雪"@.len() != "阴霾"@.len()); }
    assert("雨夹雪"@ != "灰尘"@) by { assert("雨夹雪"@.len() != "灰尘"@.len()); }
    assert("雨夹雪"@ != "多雾"@) by { assert("雨夹雪"@.len() != "多雾"@.len()); }
    assert("雨夹雪"@ != "风沙"@) by { assert("雨夹雪"@.len() != "风沙"@.len()); }
    assert("雨夹雪"@ != "飑"@) by { assert("雨夹雪"@.len() != "飑"@.len()); }
    assert("雨夹雪"@ != "龙卷风"@) by { assert("雨夹雪"@[0] != "龙卷风"@[0]); }
    assert("雨夹雪"@ != "晴天"@) by { assert("雨夹雪"@.len() != "晴天"@.len()); }
    assert("雨夹雪"@ != "少云"@) by { assert("雨夹雪"@.len() != "少云"@.len()); }
    assert("雨夹雪"@ != "多云"@) by { assert("雨夹雪"@.len() != "多云"@.len()); }
    assert("雨夹雪"@ != "阴天"@) by { assert("雨夹雪"@.len() != "阴天"@.len()); }
    assert("雨夹雪"@ != "未知"@) by { assert("雨夹雪"@.len() != "未知"@.len()); }
    assert("薄雾"@ != "烟雾"@) by { assert("薄雾"@[0] != "烟雾"@[0]); }
    assert("薄雾"@ != "阴霾"@) by { assert("薄雾"@[0] != "阴霾"@[0]); }
    assert("薄雾"@ != "灰尘"@) by { assert("薄雾"@[0] != "灰尘"@[0]); }
    assert("薄雾"@ != "多雾"@) by { assert("薄雾"@[0] != "多雾"@[0]); }
    assert("薄雾"@ != "风沙"@) by { assert("薄雾"@[0] != "风沙"@[0]); }
    assert("薄雾"@ != "飑"@) by { assert("薄雾"@.len() != "飑"@.len()); }
    assert("薄雾"@ != "龙卷风"@) by { assert("薄雾"@.len() != "龙卷风"@.len()); }
    assert("薄雾"@ != "晴天"@) by { assert("薄雾"@[0] != "晴天"@[0]); }
    assert("薄雾"@ != "少云"@) by { assert("薄雾"@[0] != "少云"@[0]); }
    assert("薄雾"@ != "多云"@) by { assert("薄雾"@[0] != "多云"@[0]); }
    assert("薄雾"@ != "阴天"@) by { assert("薄雾"@[0] != "阴天"@[0]); }
    assert("薄雾"@ != "未知"@) by { assert("薄雾"@[0] != "未知"@[0]); }
    assert("烟雾"@ != "阴霾"@) by { assert("烟雾"@[0] != "阴霾"@[0]); }
    assert("烟雾"@ != "灰尘"@) by { assert("烟雾"@[0] != "灰尘"@[0]); }
    assert("烟雾"@ != "多雾"@) by { assert("烟雾"@[0] != "多雾"@[0]); }
    assert("烟雾"@ != "风沙"@) by { assert("烟雾"@[0] != "风沙"@[0]); }
    assert("烟雾"@ != "飑"@) by { assert("烟雾"@.len() != "飑"@.len()); }
    assert("烟雾"@ != "龙卷风"@) by { assert("烟雾"@.len() != "龙卷风"@.len()); }
    assert("烟雾"@ != "晴天"@) by { assert("烟雾"@[0] != "晴天"@[0]); }
    assert("烟雾"@ != "少云"@) by { assert("烟雾"@[0] != "少云"@[0]); }
    assert("烟雾"@ != "多云"@) by { assert("烟雾"@[0] != "多云"@[0]); }
    assert("烟雾"@ != "阴天"@) by { assert("烟雾"@[0] != "阴天"@[0]); }
    assert("烟雾"@ != "未知"@) by { assert("烟雾"@[0] != "未知"@[0]); }
    assert("阴霾"@ != "灰尘"@) by { assert("阴霾"@[0] != "灰尘"@[0]); }
    assert("阴霾"@ != "多雾"@) by { assert("阴霾"@[0] != "多雾"@[0]); }
    assert("阴霾"@ != "风沙"@) by { assert("阴霾"@[0] != "风沙"@[0]); }
    assert("阴霾"@ != "飑"@) by { assert("阴霾"@.len() != "飑"@.len()); }
    assert("阴霾"@ != "龙卷风"@) by { assert("阴霾"@.len() != "龙卷风"@.len()); }
    assert("阴霾"@ != "晴天"@) by { assert("阴霾"@[0] != "晴天"@[0]); }
    assert("阴霾"@ != "少云"@) by { assert("阴霾"@[0] != "少云"@[0]); }
    assert("阴霾"@ != "多云"@) by { assert("阴霾"@[0] != "多云"@[0]); }
    assert("阴霾"@ != "阴天"@) by { assert("阴霾"@[1] != "阴天"@[1]); }
    assert("阴霾"@ != "未知"@) by { assert("阴霾"@[0] != "未知"@[0]); }
    assert("灰尘"@ != "多雾"@) by { assert("灰尘"@[0] != "多雾"@[0]); }
    assert("灰尘"@ != "风沙"@) by { assert("灰尘"@[0] != "风沙"@[0]); }
    assert("灰尘"@ != "飑"@) by { assert("灰尘"@.len() != "飑"@.len()); }
    assert("灰尘"@ != "龙卷风"@) by { assert("灰尘"@.len() != "龙卷风"@.len()); }
    assert("灰尘"@ != "晴天"@) by { assert("灰尘"@[0] != "晴天"@[0]); }
    assert("灰尘"@ != "少云"@) by { assert("灰尘"@[0] != "少云"@[0]); }
    assert("灰尘"@ != "多云"@) by { assert("灰尘"@[0] != "多云"@[0]); }
    assert("灰尘"@ != "阴天"@) by { assert("灰尘"@[0] != "阴天"@[0]); }
    assert("灰尘"@ != "未知"@) by { assert("灰尘"@[0] != "未知"@[0]); }
    assert("多雾"@ != "风沙"@) by { assert("多雾"@[0] != "风沙"@[0]); }
    assert("多雾"@ != "飑"@) by { assert("多雾"@.len() != "飑"@.len()); }
    assert("多雾"@ != "龙卷风"@) by { assert("多雾"@.len() != "龙卷风"@.len()); }
    assert("多雾"@ != "晴天"@) by { assert("多雾"@[0] != "晴天"@[0]); }
    assert("多雾"@ != "少云"@) by { assert("多雾"@[0] != "少云"@[0]); }
    assert("多雾"@ != "多云"@) by { assert("多雾"@[1] != "多云"@[1]); }
    assert("多雾"@ != "阴天"@) by { assert("多雾"@[0] != "阴天"@[0]); }
    assert("多雾"@ != "未知"@) by { assert("多雾"@[0] != "未知"@[0]); }
    assert("风沙"@ != "飑"@) by { assert("风沙"@.len() != "飑"@.len()); }
    assert("风沙"@ != "龙卷风"@) by { assert("风沙"@.len() != "龙卷风"@.len()); }
    assert("风沙"@ != "晴天"@) by { assert("风沙"@[0] != "晴天"@[0]); }
    assert("风沙"@ != "少云"@) by { assert("风沙"@[0] != "少云"@[0]); }
    assert("风沙"@ != "多云"@) by { assert("风沙"@[0] != "多云"@[0]); }
    assert("风沙"@ != "阴天"@) by { assert("风沙"@[0] != "阴天"@[0]); }
    assert("风沙"@ != "未知"@) by { assert("风沙"@[0] != "未知"@[0]); }
    assert("飑"@ != "龙卷风"@) by { assert("飑"@.len() != "龙卷风"@.len()); }
    assert("飑"@ != "晴天"@) by { assert("飑"@.len() != "晴天"@.len()); }
    assert("飑"@ != "少云"@) by { assert("飑"@.len() != "少云"@.len()); }
    assert("飑"@ != "多云"@) by { assert("飑"@.len() != "多云"@.len()); }
    assert("飑"@ != "阴天"@) by { assert("飑"@.len() != "阴天"@.len()); }
    assert("飑"@ != "未知"@) by { assert("飑"@.len() != "未知"@.len()); }
    assert("龙卷风"@ != "晴天"@) by { assert("龙卷风"@.len() != "晴天"@.len()); }
    assert("龙卷风"@ != "少云"@) by { assert("龙卷风"@.len() != "少云"@.len()); }
    assert("龙卷风"@ != "多云"@) by { assert("龙卷风"@.len() != "多云"@.len()); }
    assert("龙卷风"@ != "阴天"@) by { assert("龙卷风"@.len() != "阴天"@.len()); }
    assert("龙卷风"@ != "未知"@) by { assert("龙卷风"@.len() != "未知"@.len()); }
    assert("晴天"@ != "少云"@) by { assert("晴天"@[0] != "少云"@[0]); }
    assert("晴天"@ != "多云"@) by { assert("晴天"@[0] != "多云"@[0]); }
    assert("晴天"@ != "阴天"@) by { assert("晴天"@[0] != "阴天"@[0]); }
    assert("晴天"@ != "未知"@) by { assert("晴天"@[0] != "未知"@[0]); }
    assert("少云"@ != "多云"@) by { assert("少云"@[0] != "多云"@[0]); }
    assert("少云"@ != "阴天"@) by { assert("少云"@[0] != "阴天"@[0]); }
    assert("少云"@ != "未知"@) by { assert("少云"@[0] != "未知"@[0]); }
    assert("多云"@ != "阴天"@) by { assert("多云"@[0] != "阴天"@[0]); }
    assert("多云"@ != "未知"@) by { assert("多云"@[0] != "未知"@[0]); }
    assert("阴天"@ != "未知"@) by { assert("阴天"@[0] != "未知"@[0]); }
}

/// The icon codes of the table are pairwise different texts.
proof fn icon_codes_distinct()
    ensures
        "01n"@ != "01d"@,
        "01n"@ != "02n"@,
        "01n"@ != "02d"@,
        "01n"@ != "03n"@,
        "01n"@ != "03d"@,
        "01n"@ != "04n"@,
        "01n"@ != "04d"@,
        "01n"@ != "09n"@,
        "01n"@ != "09d"@,
        "01n"@ != "10n"@,
        "01n"@ != "10d"@,
        "01n"@ != "11n"@,
        "01n"@ != "11d"@,
        "01n"@ != "13n"@,
        "01n"@ != "13d"@,
        "01n"@ != "50n"@,
        "01n"@ != "50d"@,
        "01d"@ != "02n"@,
        "01d"@ != "02d"@,
        "01d"@ != "03n"@,
        "01d"@ != "03d"@,
        "01d"@ != "04n"@,
        "01d"@ != "04d"@,
        "01d"@ != "09n"@,
        "01d"@ != "09d"@,
        "01d"@ != "10n"@,
        "01d"@ != "10d"@,
        "01d"@ != "11n"@,
        "01d"@ != "11d"@,
        "01d"@ != "13n"@,
        "01d"@ != "13d"@,
        "01d"@ != "50n"@,
        "01d"@ != "50d"@,
        "02n"@ != "02d"@,
        "02n"@ != "03n"@,
        "02n"@ != "03d"@,
        "02n"@ != "04n"@,
        "02n"@ != "04d"@,
        "02n"@ != "09n"@,
        "02n"@ != "09d"@,
        "02n"@ != "10n"@,
        "02n"@ != "10d"@,
        "02n"@ != "11n"@,
        "02n"@ != "11d"@,
        "02n"@ != "13n"@,
        "02n"@ != "13d"@,
        "02n"@ != "50n"@,
        "02n"@ != "50d"@,
        "02d"@ != "03n"@,
        "02d"@ != "03d"@,
        "02d"@ != "04n"@,
        "02d"@ != "04d"@,
        "02d"@ != "09n"@,
        "02d"@ != "09d"@,
        "02d"@ != "10n"@,
        "02d"@ != "10d"@,
        "02d"@ != "11n"@,
        "02d"@ != "11d"@,
        "02d"@ != "13n"@,
        "02d"@ != "13d"@,
        "02d"@ != "50n"@,
        "02d"@ != "50d"@,
        "03n"@ != "03d"@,
        "03n"@ != "04n"@,
        "03n"@ != "04d"@,
        "03n"@ != "09n"@,
        "03n"@ != "09d"@,
        "03n"@ != "10n"@,
        "03n"@ != "10d"@,
        "03n"@ != "11n"@,
        "03n"@ != "11d"@,
        "03n"@ != "13n"@,
        "03n"@ != "13d"@,
        "03n"@ != "50n"@,
        "03n"@ != "50d"@,
        "03d"@ != "04n"@,
        "03d"@ != "04d"@,
        "03d"@ != "09n"@,
        "03d"@ != "09d"@,
        "03d"@ != "10n"@,
        "03d"@ != "10d"@,
        "03d"@ != "11n"@,
        "03d"@ != "11d"@,
        "03d"@ != "13n"@,
        "03d"@ != "13d"@,
        "03d"@ != "50n"@,
        "03d"@ != "50d"@,
        "04n"@ != "04d"@,
        "04n"@ != "09n"@,
        "04n"@ != "09d"@,
        "04n"@ != "10n"@,
        "04n"@ != "10d"@,
        "04n"@ != "11n"@,
        "04n"@ != "11d"@,
        "04n"@ != "13n"@,
        "04n"@ != "13d"@,
        "04n"@ != "50n"@,
        "04n"@ != "50d"@,
        "04d"@ != "09n"@,
        "04d"@ != "09d"@,
        "04d"@ != "10n"@,
        "04d"@ != "10d"@,
        "04d"@ != "11n"@,
        "04d"@ != "11d"@,
        "04d"@ != "13n"@,
        "04d"@ != "13d"@,
        "04d"@ != "50n"@,
        "04d"@ != "50d"@,
        "09n"@ != "09d"@,
        "09n"@ != "10n"@,
        "09n"@ != "10d"@,
        "09n"@ != "11n"@,
        "09n"@ != "11d"@,
        "09n"@ != "13n"@,
        "09n"@ != "13d"@,
        "09n"@ != "50n"@,
        "09n"@ != "50d"@,
        "09d"@ != "10n"@,
        "09d"@ != "10d"@,
        "09d"@ != "11n"@,
        "09d"@ != "11d"@,
        "09d"@ != "13n"@,
        "09d"@ != "13d"@,
        "09d"@ != "50n"@,
        "09d"@ != "50d"@,
        "10n"@ != "10d"@,
        "10n"@ != "11n"@,
        "10n"@ != "11d"@,
        "10n"@ != "13n"@,
        "10n"@ != "13d"@,
        "10n"@ != "50n"@,
        "10n"@ != "50d"@,
        "10d"@ != "11n"@,
        "10d"@ != "11d"@,
        "10d"@ != "13n"@,
        "10d"@ != "13d"@,
        "10d"@ != "50n"@,
        "10d"@ != "50d"@,
        "11n"@ != "11d"@,
        "11n"@ != "13n"@,
        "11n"@ != "13d"@,
        "11n"@ != "50n"@,
        "11n"@ != "50d"@,
        "11d"@ != "13n"@,
        "11d"@ != "13d"@,
        "11d"@ != "50n"@,
        "11d"@ != "50d"@,
        "13n"@ != "13d"@,
        "13n"@ != "50n"@,
        "13n"@ != "50d"@,
        "13d"@ != "50n"@,
        "13d"@ != "50d"@,
        "50n"@ != "50d"@,
{
    reveal_strlit("01n");
    reveal_strlit("01d");
    reveal_strlit("02n");
    reveal_strlit("02d");
    reveal_strlit("03n");
    reveal_strlit("03d");
    reveal_strlit("04n");
    reveal_strlit("04d");
    reveal_strlit("09n");
    reveal_strlit("09d");
    reveal_strlit("10n");
    reveal_strlit("10d");
    reveal_strlit("11n");
    reveal_strlit("11d");
    reveal_strlit("13n");
    reveal_strlit("13d");
    reveal_strlit("50n");
    reveal_strlit("50d");
    assert("01n"@ != "01d"@) by { assert("01n"@[2] != "01d"@[2]); }
    assert("01n"@ != "02n"@) by { assert("01n"@[1] != "02n"@[1]); }
    assert("01n"@ != "02d"@) by { assert("01n"@[1] != "02d"@[1]); }
    assert("01n"@ != "03n"@) by { assert("01n"@[1] != "03n"@[1]); }
    assert("01n"@ != "03d"@) by { assert("01n"@[1] != "03d"@[1]); }
    assert("01n"@ != "04n"@) by { assert("01n"@[1] != "04n"@[1]); }
    assert("01n"@ != "04d"@) by { assert("01n"@[1] != "04d"@[1]); }
    assert("01n"@ != "09n"@) by { assert("01n"@[1] != "09n"@[1]); }
    assert("01n"@ != "09d"@) by { assert("01n"@[1] != "09d"@[1]); }
    assert("01n"@ != "10n"@) by { assert("01n"@[0] != "10n"@[0]); }
    assert("01n"@ != "10d"@) by { assert("01n"@[0] != "10d"@[0]); }
    assert("01n"@ != "11n"@) by { assert("01n"@[0] != "11n"@[0]); }
    assert("01n"@ != "11d"@) by { assert("01n"@[0] != "11d"@[0]); }
    assert("01n"@ != "13n"@) by { assert("01n"@[0] != "13n"@[0]); }
    assert("01n"@ != "13d"@) by { assert("01n"@[0] != "13d"@[0]); }
    assert("01n"@ != "50n"@) by { assert("01n"@[0] != "50n"@[0]); }
    assert("01n"@ != "50d"@) by { assert("01n"@[0] != "50d"@[0]); }
    assert("01d"@ != "02n"@) by { assert("01d"@[1] != "02n"@[1]); }
    assert("01d"@ != "02d"@) by { assert("01d"@[1] != "02d"@[1]); }
    assert("01d"@ != "03n"@) by { assert("01d"@[1] != "03n"@[1]); }
    assert("01d"@ != "03d"@) by { assert("01d"@[1] != "03d"@[1]); }
    assert("01d"@ != "04n"@) by { assert("01d"@[1] != "04n"@[1]); }
    assert("01d"@ != "04d"@) by { assert("01d"@[1] != "04d"@[1]); }
    assert("01d"@ != "09n"@) by { assert("01d"@[1] != "09n"@[1]); }
    assert("01d"@ != "09d"@) by { assert("01d"@[1] != "09d"@[1]); }
    assert("01d"@ != "10n"@) by { assert("01d"@[0] != "10n"@[0]); }
    assert("01d"@ != "10d"@) by { assert("01d"@[0] != "10d"@[0]); }
    assert("01d"@ != "11n"@) by { assert("01d"@[0] != "11n"@[0]); }
    assert("01d"@ != "11d"@) by { assert("01d"@[0] != "11d"@[0]); }
    assert("01d"@ != "13n"@) by { assert("01d"@[0] != "13n"@[0]); }
    assert("01d"@ != "13d"@) by { assert("01d"@[0] != "13d"@[0]); }
    assert("01d"@ != "50n"@) by { assert("01d"@[0] != "50n"@[0]); }
    assert("01d"@ != "50d"@) by { assert("01d"@[0] != "50d"@[0]); }
    assert("02n"@ != "02d"@) by { assert("02n"@[2] != "02d"@[2]); }
    assert("02n"@ != "03n"@) by { assert("02n"@[1] != "03n"@[1]); }
    assert("02n"@ != "03d"@) by { assert("02n"@[1] != "03d"@[1]); }
    assert("02n"@ != "04n"@) by { assert("02n"@[1] != "04n"@[1]); }
    assert("02n"@ != "04d"@) by { assert("02n"@[1] != "04d"@[1]); }
    assert("02n"@ != "09n"@) by { assert("02n"@[1] != "09n"@[1]); }
    assert("02n"@ != "09d"@) by { assert("02n"@[1] != "09d"@[1]); }
    assert("02n"@ != "10n"@) by { assert("02n"@[0] != "10n"@[0]); }
    assert("02n"@ != "10d"@) by { assert("02n"@[0] != "10d"@[0]); }
    assert("02n"@ != "11n"@) by { assert("02n"@[0] != "11n"@[0]); }
    assert("02n"@ != "11d"@) by { assert("02n"@[0] != "11d"@[0]); }
    assert("02n"@ != "13n"@) by { assert("02n"@[0] != "13n"@[0]); }
    assert("02n"@ != "13d"@) by { assert("02n"@[0] != "13d"@[0]); }
    assert("02n"@ != "50n"@) by { assert("02n"@[0] != "50n"@[0]); }
    assert("02n"@ != "50d"@) by { assert("02n"@[0] != "50d"@[0]); }
    assert("02d"@ != "03n"@) by { assert("02d"@[1] != "03n"@[1]); }
    assert("02d"@ != "03d"@) by { assert("02d"@[1] != "03d"@[1]); }
    assert("02d"@ != "04n"@) by { assert("02d"@[1] != "04n"@[1]); }
    assert("02d"@ != "04d"@) by { assert("02d"@[1] != "04d"@[1]); }
    assert("02d"@ != "09n"@) by { assert("02d"@[1] != "09n"@[1]); }
    assert("02d"@ != "09d"@) by { assert("02d"@[1] != "09d"@[1]); }
    assert("02d"@ != "10n"@) by { assert("02d"@[0] != "10n"@[0]); }
    assert("02d"@ != "10d"@) by { assert("02d"@[0] != "10d"@[0]); }
    assert("02d"@ != "11n"@) by { assert("02d"@[0] != "11n"@[0]); }
    assert("02d"@ != "11d"@) by { assert("02d"@[0] != "11d"@[0]); }
    assert("02d"@ != "13n"@) by { assert("02d"@[0] != "13n"@[0]); }
    assert("02d"@ != "13d"@) by { assert("02d"@[0] != "13d"@[0]); }
    assert("02d"@ != "50n"@) by { assert("02d"@[0] != "50n"@[0]); }
    assert("02d"@ != "50d"@) by { assert("02d"@[0] != "50d"@[0]); }
    assert("03n"@ != "03d"@) by { assert("03n"@[2] != "03d"@[2]); }
    assert("03n"@ != "04n"@) by { assert("03n"@[1] != "04n"@[1]); }
    assert("03n"@ != "04d"@) by { assert("03n"@[1] != "04d"@[1]); }
    assert("03n"@ != "09n"@) by { assert("03n"@[1] != "09n"@[1]); }
    assert("03n"@ != "09d"@) by { assert("03n"@[1] != "09d"@[1]); }
    assert("03n"@ != "10n"@) by { assert("03n"@[0] != "10n"@[0]); }
    assert("03n"@ != "10d"@) by { assert("03n"@[0] != "10d"@[0]); }
    assert("03n"@ != "11n"@) by { assert("03n"@[0] != "11n"@[0]); }
    assert("03n"@ != "11d"@) by { assert("03n"@[0] != "11d"@[0]); }
    assert("03n"@ != "13n"@) by { assert("03n"@[0] != "13n"@[0]); }
    assert("03n"@ != "13d"@) by { assert("03n"@[0] != "13d"@[0]); }
    assert("03n"@ != "50n"@) by { assert("03n"@[0] != "50n"@[0]); }
    assert("03n"@ != "50d"@) by { assert("03n"@[0] != "50d"@[0]); }
    assert("03d"@ != "04n"@) by { assert("03d"@[1] != "04n"@[1]); }
    assert("03d"@ != "04d"@) by { assert("03d"@[1] != "04d"@[1]); }
    assert("03d"@ != "09n"@) by { assert("03d"@[1] != "09n"@[1]); }
    assert("03d"@ != "09d"@) by { assert("03d"@[1] != "09d"@[1]); }
    assert("03d"@ != "10n"@) by { assert("03d"@[0] != "10n"@[0]); }
    assert("03d"@ != "10d"@) by { assert("03d"@[0] != "10d"@[0]); }
    assert("03d"@ != "11n"@) by { assert("03d"@[0] != "11n"@[0]); }
    assert("03d"@ != "11d"@) by { assert("03d"@[0] != "11d"@[0]); }
    assert("03d"@ != "13n"@) by { assert("03d"@[0] != "13n"@[0]); }
    assert("03d"@ != "13d"@) by { assert("03d"@[0] != "13d"@[0]); }
    assert("03d"@ != "50n"@) by { assert("03d"@[0] != "50n"@[0]); }
    assert("03d"@ != "50d"@) by { assert("03d"@[0] != "50d"@[0]); }
    assert("04n"@ != "04d"@) by { assert("04n"@[2] != "04d"@[2]); }
    assert("04n"@ != "09n"@) by { assert("04n"@[1] != "09n"@[1]); }
    assert("04n"@ != "09d"@) by { assert("04n"@[1] != "09d"@[1]); }
    assert("04n"@ != "10n"@) by { assert("04n"@[0] != "10n"@[0]); }
    assert("04n"@ != "10d"@) by { assert("04n"@[0] != "10d"@[0]); }
    assert("04n"@ != "11n"@) by { assert("04n"@[0] != "11n"@[0]); }
    assert("04n"@ != "11d"@) by { assert("04n"@[0] != "11d"@[0]); }
    assert("04n"@ != "13n"@) by { assert("04n"@[0] != "13n"@[0]); }
    assert("04n"@ != "13d"@) by { assert("04n"@[0] != "13d"@[0]); }
    assert("04n"@ != "50n"@) by { assert("04n"@[0] != "50n"@[0]); }
    assert("04n"@ != "50d"@) by { assert("04n"@[0] != "50d"@[0]); }
    assert("04d"@ != "09n"@) by { assert("04d"@[1] != "09n"@[1]); }
    assert("04d"@ != "09d"@) by { assert("04d"@[1] != "09d"@[1]); }
    assert("04d"@ != "10n"@) by { assert("04d"@[0] != "10n"@[0]); }
    assert("04d"@ != "10d"@) by { assert("04d"@[0] != "10d"@[0]); }
    assert("04d"@ != "11n"@) by { assert("04d"@[0] != "11n"@[0]); }
    assert("04d"@ != "11d"@) by { assert("04d"@[0] != "11d"@[0]); }
    assert("04d"@ != "13n"@) by { assert("04d"@[0] != "13n"@[0]); }
    assert("04d"@ != "13d"@) by { assert("04d"@[0] != "13d"@[0]); }
    assert("04d"@ != "50n"@) by { assert("04d"@[0] != "50n"@[0]); }
    assert("04d"@ != "50d"@) by { assert("04d"@[0] != "50d"@[0]); }
    assert("09n"@ != "09d"@) by { assert("09n"@[2] != "09d"@[2]); }
    assert("09n"@ != "10n"@) by { assert("09n"@[0] != "10n"@[0]); }
    assert("09n"@ != "10d"@) by { assert("09n"@[0] != "10d"@[0]); }
    assert("09n"@ != "11n"@) by { assert("09n"@[0] != "11n"@[0]); }
    assert("09n"@ != "11d"@) by { assert("09n"@[0] != "11d"@[0]); }
    assert("09n"@ != "13n"@) by { assert("09n"@[0] != "13n"@[0]); }
    assert("09n"@ != "13d"@) by { assert("09n"@[0] != "13d"@[0]); }
    assert("09n"@ != "50n"@) by { assert("09n"@[0] != "50n"@[0]); }
    assert("09n"@ != "50d"@) by { assert("09n"@[0] != "50d"@[0]); }
    assert("09d"@ != "10n"@) by { assert("09d"@[0] != "10n"@[0]); }
    assert("09d"@ != "10d"@) by { assert("09d"@[0] != "10d"@[0]); }
    assert("09d"@ != "11n"@) by { assert("09d"@[0] != "11n"@[0]); }
    assert("09d"@ != "11d"@) by { assert("09d"@[0] != "11d"@[0]); }
    assert("09d"@ != "13n"@) by { assert("09d"@[0] != "13n"@[0]); }
    assert("09d"@ != "13d"@) by { assert("09d"@[0] != "13d"@[0]); }
    assert("09d"@ != "50n"@) by { assert("09d"@[0] != "50n"@[0]); }
    assert("09d"@ != "50d"@) by { assert("09d"@[0] != "50d"@[0]); }
    assert("10n"@ != "10d"@) by { assert("10n"@[2] != "10d"@[2]); }
    assert("10n"@ != "11n"@) by { assert("10n"@[1] != "11n"@[1]); }
    assert("10n"@ != "11d"@) by { assert("10n"@[1] != "11d"@[1]); }
    assert("10n"@ != "13n"@) by { assert("10n"@[1] != "13n"@[1]); }
    assert("10n"@ != "13d"@) by { assert("10n"@[1] != "13d"@[1]); }
    assert("10n"@ != "50n"@) by { assert("10n"@[0] != "50n"@[0]); }
    assert("10n"@ != "50d"@) by { assert("10n"@[0] != "50d"@[0]); }
    assert("10d"@ != "11n"@) by { assert("10d"@[1] != "11n"@[1]); }
    assert("10d"@ != "11d"@) by { assert("10d"@[1] != "11d"@[1]); }
    assert("10d"@ != "13n"@) by { assert("10d"@[1] != "13n"@[1]); }
    assert("10d"@ != "13d"@) by { assert("10d"@[1] != "13d"@[1]); }
    assert("10d"@ != "50n"@) by { assert("10d"@[0] != "50n"@[0]); }
    assert("10d"@ != "50d"@) by { assert("10d"@[0] != "50d"@[0]); }
    assert("11n"@ != "11d"@) by { assert("11n"@[2] != "11d"@[2]); }
    assert("11n"@ != "13n"@) by { assert("11n"@[1] != "13n"@[1]); }
    assert("11n"@ != "13d"@) by { assert("11n"@[1] != "13d"@[1]); }
    assert("11n"@ != "50n"@) by { assert("11n"@[0] != "50n"@[0]); }
    assert("11n"@ != "50d"@) by { assert("11n"@[0] != "50d"@[0]); }
    assert("11d"@ != "13n"@) by { assert("11d"@[1] != "13n"@[1]); }
    assert("11d"@ != "13d"@) by { assert("11d"@[1] != "13d"@[1]); }
    assert("11d"@ != "50n"@) by { assert("11d"@[0] != "50n"@[0]); }
    assert("11d"@ != "50d"@) by { assert("11d"@[0] != "50d"@[0]); }
    assert("13n"@ != "13d"@) by { assert("13n"@[2] != "13d"@[2]); }
    assert("13n"@ != "50n"@) by { assert("13n"@[0] != "50n"@[0]); }
    assert("13n"@ != "50d"@) by { assert("13n"@[0] != "50d"@[0]); }
    assert("13d"@ != "50n"@) by { assert("13d"@[0] != "50n"@[0]); }
    assert("13d"@ != "50d"@) by { assert("13d"@[0] != "50d"@[0]); }
    assert("50n"@ != "50d"@) by { assert("50n"@[2] != "50d"@[2]); }
}

/// Which ids each description stands for: every description of the table
/// is given to exactly the ids listed for it, and "未知" to every other id.
pub proof fn descriptions_by_id(id: u16)
    ensures
        desc_of(id) == "雷雨"@ <==> (200 <= id <= 233),
        desc_of(id) == "细雨"@ <==> (300 <= id <= 322),
        desc_of(id) == "中雨"@ <==> (id == 501),
        desc_of(id) == "小雨"@ <==> (id == 500 || id == 520),
        desc_of(id) == "大雨"@ <==> (id == 502 || id == 521),
        desc_of(id) == "暴雨"@ <==> (id == 503 || id == 504 || id == 522 || id == 531),
        desc_of(id) == "小雪"@ <==> (id == 600 || id == 620),
        desc_of(id) == "中雪"@ <==> (id == 601 || id == 621),
        desc_of(id) == "大雪"@ <==> (id == 602 || id == 622),
        desc_of(id) == "雨夹雪"@ <==> (611 <= id <= 617),
        desc_of(id) == "薄雾"@ <==> (id == 701),
        desc_of(id) == "烟雾"@ <==> (id == 711),
        desc_of(id) == "阴霾"@ <==> (id == 721),
        desc_of(id) == "灰尘"@ <==> (id == 731 || id == 761 || id == 762),
        desc_of(id) == "多雾"@ <==> (id == 741),
        desc_of(id) == "风沙"@ <==> (id == 751),
        desc_of(id) == "飑"@ <==> (id == 771),
        desc_of(id) == "龙卷风"@ <==> (id == 781),
        desc_of(id) == "晴天"@ <==> (id == 800),
        desc_of(id) == "少云"@ <==> (id == 801),
        desc_of(id) == "多云"@ <==> (id == 802 || id == 803),
        desc_of(id) == "阴天"@ <==> (id == 804),
        desc_of(id) == "未知"@ <==> !((200 <= id <= 233) || (300 <= id <= 322) || (id == 501) || (id == 500 || id == 520) || (id == 502 || id == 521) || (id == 503 || id == 504 || id == 522 || id == 531) || (id == 600 || id == 620) || (id == 601 || id == 621) || (id == 602 || id == 622) || (611 <= id <= 617) || (id == 701) || (id == 711) || (id == 721) || (id == 731 || id == 761 || id == 762) || (id == 741) || (id == 751) || (id == 771) || (id == 781) || (id == 800) || (id == 801) || (id == 802 || id == 803) || (id == 804)),
{
    descriptions_distinct();

}

/// Which codes each icon stands for: each icon is drawn for exactly its day
/// and night code, and the alert icon for every other code.
pub proof fn icons_by_code(code: Seq<char>)
    ensures
        icon_of(code) == WeatherIcon::ClearSky <==> (code == "01n"@ || code == "01d"@),
        icon_of(code) == WeatherIcon::FewClouds <==> (code == "02n"@ || code == "02d"@),
        icon_of(code) == WeatherIcon::ScatteredClouds <==> (code == "03n"@ || code == "03d"@),
        icon_of(code) == WeatherIcon::BrokenClouds <==> (code == "04n"@ || code == "04d"@),
        icon_of(code) == WeatherIcon::ShowerRain <==> (code == "09n"@ || code == "09d"@),
        icon_of(code) == WeatherIcon::Rain <==> (code == "10n"@ || code == "10d"@),
        icon_of(code) == WeatherIcon::Thunderstorm <==> (code == "11n"@ || code == "11d"@),
        icon_of(code) == WeatherIcon::Snow <==> (code == "13n"@ || code == "13d"@),
        icon_of(code) == WeatherIcon::Mist <==> (code == "50n"@ || code == "50d"@),
        icon_of(code) == WeatherIcon::Alert <==> !(code == "01n"@ || code == "01d"@ || code == "02n"@ || code == "02d"@ || code == "03n"@ || code == "03d"@ || code == "04n"@ || code == "04d"@ || code == "09n"@ || code == "09d"@ || code == "10n"@ || code == "10d"@ || code == "11n"@ || code == "11d"@ || code == "13n"@ || code == "13d"@ || code == "50n"@ || code == "50d"@),
{
    icon_codes_distinct();

}

} // verus!
