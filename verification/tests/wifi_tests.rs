use mast_remarkable::wifi::{
    click_turns_wifi_on, connect_step, connect_wait_step, search_path, wifi_icon,
    wifi_icon_needs_redraw, wifi_icon_view, wifi_state_from_info, wifi_state_label, ConnectStep,
    WaitFinish, WifiIcon, WifiState, CONNECT_ATTEMPTS,
};

const OFF: &str = "Interface wlan0\n\tifindex 3\n\ttype managed\n";
const ON: &str = "Interface wlan0\n\ttype managed\n\ttxpower 31.00 dBm\nwlan0 ESSID:off/any\n";
const CONNECTED: &str = "Interface wlan0\n\tssid home\n\ttxpower 31.00 dBm\n";

#[test]
fn classifies_iw_output() {
    assert_eq!(wifi_state_from_info(OFF), WifiState::Unable(0));
    assert_eq!(wifi_state_from_info(ON), WifiState::Enable(1));
    assert_eq!(wifi_state_from_info(CONNECTED), WifiState::Connected(2));
    assert_eq!(wifi_state_from_info(""), WifiState::Unable(0));
}

#[test]
fn labels_match_debug() {
    for s in [WifiState::Unable(0), WifiState::Enable(1), WifiState::Connected(2), WifiState::Enable(17)] {
        assert_eq!(wifi_state_label(s), format!("{:?}", s));
    }
    assert_eq!(wifi_state_label(WifiState::Connected(2)), "Connected(2)");
}

#[test]
fn icons_of_states() {
    assert_eq!(wifi_icon(WifiState::Unable(0)), WifiIcon::Off);
    assert_eq!(wifi_icon(WifiState::Enable(1)), WifiIcon::On);
    assert_eq!(wifi_icon(WifiState::Connected(2)), WifiIcon::Connected);
}

#[test]
fn redraw_only_on_change() {
    assert!(wifi_icon_needs_redraw(None, WifiState::Unable(0)));
    assert!(!wifi_icon_needs_redraw(Some("Unable(0)"), WifiState::Unable(0)));
    assert!(wifi_icon_needs_redraw(Some("Unable(0)"), WifiState::Connected(2)));
    let label = wifi_state_label(WifiState::Enable(1));
    assert!(!wifi_icon_needs_redraw(Some(label.as_str()), WifiState::Enable(1)));
}

#[test]
fn clicks_and_connect_steps() {
    assert!(click_turns_wifi_on(WifiState::Unable(0)));
    assert!(!click_turns_wifi_on(WifiState::Enable(1)));
    assert!(!click_turns_wifi_on(WifiState::Connected(2)));
    assert_eq!(connect_step(WifiState::Unable(0)), ConnectStep::TurnOn);
    assert_eq!(connect_step(WifiState::Enable(1)), ConnectStep::Wait);
    assert_eq!(connect_step(WifiState::Connected(2)), ConnectStep::Done);
}

#[test]
fn search_paths() {
    assert_eq!(search_path(None), "/usr/sbin:/sbin");
    assert_eq!(search_path(Some("/bin:/usr/bin".to_string())), "/bin:/usr/bin:/usr/sbin:/sbin");
    assert_eq!(search_path(Some(String::new())), ":/usr/sbin:/sbin");
}

#[test]
fn wifi_indicator_view() {
    let v = wifi_icon_view(WifiState::Enable(1));
    assert_eq!(v.element, "wifi_icon");
    assert_eq!(v.label, "Enable(1)");
    assert_eq!(v.icon, WifiIcon::On);
    assert_eq!((v.pos.x, v.pos.y), (1760, 50));
    assert!(v.clickable);
}

#[test]
fn connect_wait_steps() {
    let first = connect_wait_step(0, WifiState::Unable(0));
    assert!(first.turn_on && first.finish == WaitFinish::Continue && !first.redraw_icon);
    let connected = connect_wait_step(13, WifiState::Connected(2));
    assert!(!connected.turn_on && connected.finish == WaitFinish::Connected && !connected.redraw_icon);
    let last = connect_wait_step(CONNECT_ATTEMPTS - 1, WifiState::Enable(1));
    assert!(!last.turn_on && last.finish == WaitFinish::GiveUp && last.redraw_icon);
    let last_off = connect_wait_step(13, WifiState::Unable(0));
    assert!(last_off.turn_on && last_off.finish == WaitFinish::GiveUp && last_off.redraw_icon);
    assert_eq!(CONNECT_ATTEMPTS, 14);
}
