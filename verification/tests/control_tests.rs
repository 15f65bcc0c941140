use mast_remarkable::control::{
    clicked_tile_indices, device_index_of, device_tiles, showable_tiles, RegionAt, random_switch, switch_for_random, switch_for_value, DeviceView,
    Param, RemarkableDeviceView, SwitchIcon,
};

fn device(name: &str, value: &str) -> RemarkableDeviceView {
    RemarkableDeviceView {
        device: Some(DeviceView {
            id: 1,
            name: name.to_string(),
            desc: Some(format!("{} desc", name)),
            device_type: "switch".to_string(),
            icon: None,
        }),
        param: Some(Param {
            id: 2,
            param_type: "bool".to_string(),
            value_type: "int".to_string(),
            key: "power".to_string(),
            desc: None,
            options: "0,1".to_string(),
            value: value.to_string(),
            usage: "power".to_string(),
            device_id: 1,
            in_id: None,
            out_id: Some(3),
        }),
        sort: 0,
    }
}

#[test]
fn tiles_wrap_after_the_fourth() {
    let list: Vec<_> = (0..6).map(|i| device(&format!("d{}", i), if i % 2 == 0 { "1" } else { "0" })).collect();
    let t = device_tiles(&list);
    assert_eq!(t.len(), 6);
    assert_eq!((t[0].name_pos.x, t[0].name_pos.y), (410, 1000));
    assert_eq!((t[3].name_pos.x, t[3].name_pos.y), (1250, 1000));
    assert_eq!((t[4].name_pos.x, t[4].name_pos.y), (410, 1280));
    assert_eq!((t[5].name_pos.x, t[5].name_pos.y), (690, 1280));
    assert_eq!((t[5].icon_pos.x, t[5].icon_pos.y), (690, 1160));
    assert_eq!((t[5].desc_pos.x, t[5].desc_pos.y), (690, 1322));
    assert_eq!((t[5].border_pos.x, t[5].border_pos.y), (640, 1140));
    assert_eq!(t[0].switch, SwitchIcon::On);
    assert_eq!(t[1].switch, SwitchIcon::Off);
    assert_eq!(t[2].icon_name, "2_device:icon");
    assert_eq!(t[2].icon_image_name, "2:device_icon");
    assert_eq!(t[2].name_name, "2_device:name");
    assert_eq!(t[2].name_text, "d2");
    assert_eq!(t[2].desc_name, "2_device:desc");
    assert_eq!(t[2].desc_text, "d2 desc");
    assert_eq!(t[2].border_name, "2_device:border");
    assert_eq!(t[2].border_region_name, "2:device_border");
}

#[test]
fn switch_values() {
    assert_eq!(switch_for_value("1"), SwitchIcon::On);
    assert_eq!(switch_for_value("0"), SwitchIcon::Off);
    assert_eq!(switch_for_value("11"), SwitchIcon::Off);
    assert_eq!(switch_for_value(""), SwitchIcon::Off);
}

#[test]
fn region_names_read_back() {
    for i in 0u8..10 {
        assert_eq!(device_index_of(&format!("{}:device_border", i)), Some(i));
    }
    assert_eq!(device_index_of("12:device_border"), Some(1));
    assert_eq!(device_index_of(""), None);
    assert_eq!(device_index_of("x:device_border"), None);
    assert_eq!(device_index_of("一"), None);
}

#[test]
fn random_switch_parity() {
    assert_eq!(switch_for_random(1), SwitchIcon::On);
    assert_eq!(switch_for_random(u32::MAX), SwitchIcon::On);
    assert_eq!(switch_for_random(0), SwitchIcon::Off);
    assert_eq!(switch_for_random(42), SwitchIcon::Off);
    let s = random_switch();
    assert!(s == SwitchIcon::On || s == SwitchIcon::Off);
}

#[test]
fn showable_tiles_checks_each_device() {
    let good = vec![device("a", "1"), device("b", "0")];
    let tiles = showable_tiles(&good).unwrap();
    assert_eq!(tiles.len(), 2);
    assert_eq!(tiles[1].name_text, "b");
    let mut no_desc = device("c", "1");
    no_desc.device.as_mut().unwrap().desc = None;
    assert!(showable_tiles(&vec![device("a", "1"), no_desc]).is_none());
    let mut no_param = device("d", "1");
    no_param.param = None;
    assert!(showable_tiles(&vec![no_param]).is_none());
    assert!(showable_tiles(&Vec::new()).unwrap().is_empty());
}

fn region(name: &str, x: i32, y: i32) -> RegionAt {
    RegionAt { name: name.to_string(), pos: mast_remarkable::weather::Point { x, y } }
}

#[test]
fn clicks_hit_the_regions_at_the_position() {
    let regions = vec![
        region("0_device:border", 360, 860),
        region("1_device:border", 640, 860),
        region("5_device:border", 640, 860),
        region("x_other", 1, 1),
    ];
    let at = |x, y| mast_remarkable::weather::Point { x, y };
    assert_eq!(clicked_tile_indices(&regions, at(640, 860)), Some(vec![1, 5]));
    assert_eq!(clicked_tile_indices(&regions, at(360, 860)), Some(vec![0]));
    assert_eq!(clicked_tile_indices(&regions, at(0, 0)), Some(vec![]));
    assert_eq!(clicked_tile_indices(&regions, at(1, 1)), None);
}
