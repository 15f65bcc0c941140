use mast_remarkable::battery::{plan_battery, BatteryMemo, ChargingIcon};

#[test]
fn first_reading_shows_everything() {
    let mut m = BatteryMemo::new();
    let p = plan_battery(&mut m, "Charging", 57);
    assert_eq!(p.charging_icon, ChargingIcon::Show);
    assert_eq!(p.percent_text, Some("57%".to_string()));
    assert_eq!(m.status, Some("Charging".to_string()));
    assert_eq!(m.percent, 57);
    assert_eq!(p.icon_name, "battery_state");
    assert_eq!((p.icon_pos.x, p.icon_pos.y), (1720, 120));
    assert_eq!(p.text_name, "batter_display");
    assert_eq!((p.text_pos.x, p.text_pos.y), (1770, 155));
}

#[test]
fn same_reading_changes_nothing() {
    let mut m = BatteryMemo::new();
    plan_battery(&mut m, "Discharging", 80);
    let p = plan_battery(&mut m, "Discharging", 80);
    assert_eq!(p.charging_icon, ChargingIcon::Keep);
    assert_eq!(p.percent_text, None);
}

#[test]
fn unplugging_removes_the_icon() {
    let mut m = BatteryMemo::new();
    plan_battery(&mut m, "Charging", 80);
    let p = plan_battery(&mut m, "Discharging", 79);
    assert_eq!(p.charging_icon, ChargingIcon::Remove);
    assert_eq!(p.percent_text, Some("79%".to_string()));
}

#[test]
fn empty_status_and_zero_at_start_change_nothing() {
    let mut m = BatteryMemo::new();
    let p = plan_battery(&mut m, "", 0);
    assert_eq!(p.charging_icon, ChargingIcon::Keep);
    assert_eq!(p.percent_text, None);
    assert_eq!(m.status, None);
}
