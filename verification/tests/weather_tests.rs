use mast_remarkable::weather::{
    current_weather_view, daily_weather_views, hourly_weather_views, is_hourly_refreshed,
    map_desc, map_icon, Current, Daily, DailyTemp, Hourly, WeatherDesc, WeatherIcon,
};

fn desc(icon: &str, id: u16) -> WeatherDesc {
    WeatherDesc {
        description: "d".to_string(),
        icon: icon.to_string(),
        id,
        main: "m".to_string(),
    }
}

#[test]
fn icons_of_codes() {
    assert_eq!(map_icon("01d".to_string()), WeatherIcon::ClearSky);
    assert_eq!(map_icon("01n".to_string()), WeatherIcon::ClearSky);
    assert_eq!(map_icon("02d".to_string()), WeatherIcon::FewClouds);
    assert_eq!(map_icon("03n".to_string()), WeatherIcon::ScatteredClouds);
    assert_eq!(map_icon("04d".to_string()), WeatherIcon::BrokenClouds);
    assert_eq!(map_icon("09n".to_string()), WeatherIcon::ShowerRain);
    assert_eq!(map_icon("10d".to_string()), WeatherIcon::Rain);
    assert_eq!(map_icon("11n".to_string()), WeatherIcon::Thunderstorm);
    assert_eq!(map_icon("13d".to_string()), WeatherIcon::Snow);
    assert_eq!(map_icon("50n".to_string()), WeatherIcon::Mist);
    assert_eq!(map_icon("99d".to_string()), WeatherIcon::Alert);
    assert_eq!(map_icon(String::new()), WeatherIcon::Alert);
}

#[test]
fn day_and_night_icons_agree() {
    for stem in ["01", "02", "03", "04", "09", "10", "11", "13", "50", "77"] {
        assert_eq!(
            map_icon(format!("{}d", stem)),
            map_icon(format!("{}n", stem))
        );
    }
}

#[test]
fn descriptions_of_ids() {
    assert_eq!(map_desc(200), "雷雨");
    assert_eq!(map_desc(233), "雷雨");
    assert_eq!(map_desc(300), "细雨");
    assert_eq!(map_desc(501), "中雨");
    assert_eq!(map_desc(520), "小雨");
    assert_eq!(map_desc(521), "大雨");
    assert_eq!(map_desc(531), "暴雨");
    assert_eq!(map_desc(620), "小雪");
    assert_eq!(map_desc(621), "中雪");
    assert_eq!(map_desc(602), "大雪");
    assert_eq!(map_desc(615), "雨夹雪");
    assert_eq!(map_desc(701), "薄雾");
    assert_eq!(map_desc(711), "烟雾");
    assert_eq!(map_desc(721), "阴霾");
    assert_eq!(map_desc(762), "灰尘");
    assert_eq!(map_desc(741), "多雾");
    assert_eq!(map_desc(751), "风沙");
    assert_eq!(map_desc(771), "飑");
    assert_eq!(map_desc(781), "龙卷风");
    assert_eq!(map_desc(800), "晴天");
    assert_eq!(map_desc(801), "少云");
    assert_eq!(map_desc(802), "多云");
    assert_eq!(map_desc(803), "多云");
    assert_eq!(map_desc(804), "阴天");
    assert_eq!(map_desc(234), "未知");
    assert_eq!(map_desc(0), "未知");
}

#[test]
fn current_panel() {
    let c = Current {
        clouds: 20,
        dt: 0,
        feels_like: 20,
        temp: 23,
        weather: vec![desc("10n", 500), desc("01d", 800)],
    };
    let v = current_weather_view(&c);
    assert_eq!(v.icon, WeatherIcon::Rain);
    assert_eq!(v.temp_text, "23℃");
    assert_eq!(v.desc_text, "小雨");
    assert_eq!(v.update_text, "更新时间:01-01 08:00");
    assert_eq!(v.icon_name, "icon:current:weather");
    assert_eq!(v.temp_name, "temp:current:weather");
    assert_eq!(v.desc_name, "desc:current:weather");
    assert_eq!(v.update_name, "update_time:current:weather");
    assert_eq!((v.icon_pos.x, v.icon_pos.y), (16, 16));
    assert_eq!((v.temp_pos.x, v.temp_pos.y), (220, 80));
    assert_eq!((v.desc_pos.x, v.desc_pos.y), (220, 140));
    assert_eq!((v.update_pos.x, v.update_pos.y), (80, 230));
    for name in [v.icon_name, v.temp_name, v.desc_name, v.update_name] {
        assert!(is_hourly_refreshed(name));
    }
}

#[test]
fn current_temperature_is_clipped_to_a_byte() {
    let mut c = Current { clouds: 0, dt: 0, feels_like: 0, temp: -5, weather: vec![desc("01d", 800)] };
    assert_eq!(current_weather_view(&c).temp_text, "0℃");
    c.temp = 300;
    assert_eq!(current_weather_view(&c).temp_text, "255℃");
    c.temp = 255;
    assert_eq!(current_weather_view(&c).temp_text, "255℃");
}

fn day(dt: u64, max: i32, min: i32) -> Daily {
    Daily {
        dt,
        temp: DailyTemp { day: 0, eve: 0, max, min, morn: 0, night: 0 },
        weather: vec![desc("13d", 601)],
    }
}

#[test]
fn daily_panel_rows() {
    let days = vec![day(0, 5, -3), day(86_400, 12, 1)];
    let v = daily_weather_views(&days);
    assert_eq!(v.len(), 2);
    assert_eq!(v[0].date_name, "0_date:daily:weather");
    assert_eq!(v[0].date_text, "01月01日");
    assert_eq!(v[0].temp_text, "5℃/-3℃");
    assert_eq!(v[0].icon, WeatherIcon::Snow);
    assert_eq!(v[0].desc_text, "中雪");
    assert_eq!((v[0].date_pos.x, v[0].date_pos.y), (110, 330));
    assert_eq!((v[0].temp_pos.x, v[0].temp_pos.y), (40, 390));
    assert_eq!((v[0].icon_pos.x, v[0].icon_pos.y), (40, 290));
    assert_eq!((v[0].desc_pos.x, v[0].desc_pos.y), (170, 390));
    assert_eq!(v[1].desc_name, "1_desc:daily:weather");
    assert_eq!(v[1].date_text, "01月02日");
    assert_eq!(v[1].temp_text, "12℃/1℃");
    assert_eq!(v[1].date_pos.y - v[0].date_pos.y, 140);
}

#[test]
fn daily_panel_empty() {
    assert!(daily_weather_views(&Vec::new()).is_empty());
}

fn hour(dt: u64, temp: i32) -> Hourly {
    Hourly { dt, temp, weather: vec![desc("04n", 804)] }
}

#[test]
fn hourly_strip_stops_at_the_edge() {
    let hours: Vec<Hourly> = (0..25).map(|i| hour(3600 * i, i as i32 - 3)).collect();
    let v = hourly_weather_views(&hours);
    assert_eq!(v.len(), 19);
    assert!(v.iter().all(|c| c.hour_pos.x <= 1800));
    assert_eq!(v[18].hour_pos.x, 1790);
    assert_eq!(v[0].hour_text, "08时");
    assert_eq!(v[16].hour_text, "00时");
    assert_eq!(v[0].temp_text, "-3℃");
    assert_eq!(v[0].temp_name, "0_temp:hourly:weather");
    assert_eq!((v[1].icon_pos.x, v[1].icon_pos.y), (430, 66));
    assert_eq!((v[1].temp_pos.x, v[1].temp_pos.y), (430, 140));
    assert_eq!(v[2].icon, WeatherIcon::BrokenClouds);
}

#[test]
fn hourly_strip_short_report() {
    let hours = vec![hour(0, 1), hour(3600, 2)];
    let v = hourly_weather_views(&hours);
    assert_eq!(v.len(), 2);
    assert_eq!(v[1].hour_name, "1_hour:hourly:weather");
}

#[test]
fn elements_redrawn_each_hour() {
    assert!(is_hourly_refreshed("temp:current:weather"));
    assert!(is_hourly_refreshed("3_icon:hourly:weather"));
    assert!(!is_hourly_refreshed("0_date:daily:weather"));
    assert!(!is_hourly_refreshed("clock_hour"));
}

#[test]
fn hourly_refresh_selects_strip_names_only() {
    let hours = vec![hour(0, 1), hour(3600, 2)];
    for c in hourly_weather_views(&hours) {
        assert!(is_hourly_refreshed(&c.hour_name));
        assert!(is_hourly_refreshed(&c.icon_name));
        assert!(is_hourly_refreshed(&c.temp_name));
    }
    let days = vec![day(0, 1, 0)];
    for r in daily_weather_views(&days) {
        assert!(!is_hourly_refreshed(&r.date_name));
        assert!(!is_hourly_refreshed(&r.temp_name));
        assert!(!is_hourly_refreshed(&r.icon_name));
        assert!(!is_hourly_refreshed(&r.desc_name));
    }
}
