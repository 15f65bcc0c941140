//! The smart-device panel: the devices the home server lists, their tiles
//! on screen, and what a click on a tile does.

use vstd::prelude::*;
use rand::Rng;
use crate::text::{decimal, indexed_name, same_text};
use crate::weather::Point;

verus! {

/// A device as the home server lists it, with its switch parameter.
pub struct RemarkableDeviceView {
    pub device: Option<DeviceView>,
    pub param: Option<Param>,
    pub sort: i32,
}

/// The description of a device.
pub struct DeviceView {
    pub id: i32,
    pub name: String,
    pub desc: Option<String>,
    pub device_type: String,
    pub icon: Option<String>,
}

/// A parameter of a device; `value` "1" means switched on.
pub struct Param {
    pub id: i32,
    pub param_type: String,
    pub value_type: String,
    pub key: String,
    pub desc: Option<String>,
    pub options: String,
    pub value: String,
    pub usage: String,
    pub device_id: i32,
    pub in_id: Option<i32>,
    pub out_id: Option<i32>,
}

/// The two images of a device switch.
#[derive(Clone, Copy, Debug, PartialEq, Eq, Structural)]
pub enum SwitchIcon {
    On,
    Off,
}

/// The switch image for a parameter value: on exactly for "1".
pub open spec fn switch_of(value: Seq<char>) -> SwitchIcon {
    if value == "1"@ {
        SwitchIcon::On
    } else {
        SwitchIcon::Off
    }
}

/// The switch image for a parameter value.
pub fn switch_for_value(value: &str) -> (r: SwitchIcon)
    ensures
        r == switch_of(value@),
{
    if same_text(value, "1") {
        SwitchIcon::On
    } else {
        SwitchIcon::Off
    }
}

/// The anchor of the `i`-th tile: four tiles 280 pixels apart on the first
/// row from x = 400, y = 1000; every later tile on the second row, 280
/// pixels below, again from x = 400.
pub open spec fn slot_x(i: int) -> int {
    if i <= 3 {
        400 + 280 * i
    } else {
        400 + 280 * (i - 4)
    }
}

/// See `slot_x`.
pub open spec fn slot_y(i: int) -> int {
    if i <= 3 {
        1000
    } else {
        1280
    }
}

/// Distinct tiles have distinct anchors.
pub proof fn slots_distinct(i: int, j: int)
    requires
        0 <= i,
        0 <= j,
        i != j,
    ensures
        slot_x(i) != slot_x(j) || slot_y(i) != slot_y(j),
{
}

/// What one device tile shows: the switch icon, the device name, its
/// description and the clickable border, with their element names.
pub struct DeviceTile {
    pub icon_name: String,
    pub icon_image_name: String,
    pub icon_pos: Point,
    pub switch: SwitchIcon,
    pub name_name: String,
    pub name_text: String,
    pub name_pos: Point,
    pub desc_name: String,
    pub desc_text: String,
    pub desc_pos: Point,
    pub border_name: String,
    pub border_region_name: String,
    pub border_pos: Point,
}

/// A listed device the panel can show: it has a description with a text,
/// and a switch parameter.
pub open spec fn showable(d: RemarkableDeviceView) -> bool {
    &&& d.device is Some
    &&& d.device->0.desc is Some
    &&& d.param is Some
}

/// `t` is the `i`-th tile, showing device `d`.
pub open spec fn is_tile(t: DeviceTile, d: RemarkableDeviceView, i: int) -> bool {
    let x = slot_x(i);
    let y = slot_y(i);
    &&& t.icon_name@ == decimal(i as nat) + "_device:icon"@
    &&& t.icon_image_name@ == decimal(i as nat) + ":device_icon"@
    &&& t.icon_pos == (Point { x: (x + 10) as i32, y: (y - 120) as i32 })
    &&& t.switch == switch_of(d.param->0.value@)
    &&& t.name_name@ == decimal(i as nat) + "_device:name"@
    &&& t.name_text@ == d.device->0.name@
    &&& t.name_pos == (Point { x: (x + 10) as i32, y: y as i32 })
    &&& t.desc_name@ == decimal(i as nat) + "_device:desc"@
    &&& t.desc_text@ == d.device->0.desc->0@
    &&& t.desc_pos == (Point { x: (x + 10) as i32, y: (y + 42) as i32 })
    &&& t.border_name@ == decimal(i as nat) + "_device:border"@
    &&& t.border_region_name@ == decimal(i as nat) + ":device_border"@
    &&& t.border_pos == (Point { x: (x - 40) as i32, y: (y - 140) as i32 })
}

fn device_tile(d: &RemarkableDeviceView, i: usize, x: i32, y: i32) -> (t: DeviceTile)
    requires
        showable(*d),
        x == slot_x(i as int),
        y == slot_y(i as int),
        x + 10 <= i32::MAX,
    ensures
        is_tile(t, *d, i as int),
{
    let device = d.device.as_ref().unwrap();
    let param = d.param.as_ref().unwrap();
    let desc = device.desc.as_ref().unwrap();
    DeviceTile {
        icon_name: indexed_name(i as u64, "_device:icon"),
        icon_image_name: indexed_name(i as u64, ":device_icon"),
        icon_pos: Point { x: x + 10, y: y - 120 },
        switch: switch_for_value(param.value.as_str()),
        name_name: indexed_name(i as u64, "_device:name"),
        name_text: device.name.clone(),
        name_pos: Point { x: x + 10, y },
        desc_name: indexed_name(i as u64, "_device:desc"),
        desc_text: desc.clone(),
        desc_pos: Point { x: x + 10, y: y + 42 },
        border_name: indexed_name(i as u64, "_device:border"),
        border_region_name: indexed_name(i as u64, ":device_border"),
        border_pos: Point { x: x - 40, y: y - 140 },
    }
}

/// The tiles of the device panel, one per listed device, in list order.
pub fn device_tiles(list: &Vec<RemarkableDeviceView>) -> (v: Vec<DeviceTile>)
    requires
        forall|i: int| 0 <= i < list@.len() ==> showable(#[trigger] list@[i]),
        slot_x(list@.len() as int) <= i32::MAX,
    ensures
        v@.len() == list@.len(),
        forall|i: int| 0 <= i < list@.len() ==> is_tile(#[trigger] v@[i], list@[i], i),
{
    let mut v: Vec<DeviceTile> = Vec::new();
    let mut x: i32 = 400;
    let mut y: i32 = 1000;
    let mut i: usize = 0;
    while i < list.len()
        invariant
            forall|k: int| 0 <= k < list@.len() ==> showable(#[trigger] list@[k]),
            slot_x(list@.len() as int) <= i32::MAX,
            i <= list@.len(),
            x == slot_x(i as int),
            y == slot_y(i as int),
            v@.len() == i,
            forall|k: int| 0 <= k < i ==> is_tile(#[trigger] v@[k], list@[k], k),
        decreases list@.len() - i,
    {
        let tile = device_tile(&list[i], i, x, y);
        v.push(tile);
        if i == 3 {
            y = y + 280;
            x = 400;
        } else {
            x = x + 280;
        }
        i = i + 1;
    }
    v
}

/// The tiles of the device panel when every listed device can be shown and
/// the row fits the screen coordinates; `None` otherwise.
pub fn showable_tiles(list: &Vec<RemarkableDeviceView>) -> (r: Option<Vec<DeviceTile>>)
    ensures
        r is Some <==> ((forall|i: int| 0 <= i < list@.len() ==> showable(#[trigger] list@[i]))
            && slot_x(list@.len() as int) <= i32::MAX),
        r matches Some(v) ==> v@.len() == list@.len() && forall|i: int|
            0 <= i < list@.len() ==> is_tile(#[trigger] v@[i], list@[i], i),
{
    let n: usize = list.len();
    let mut i: usize = 0;
    while i < n
        invariant
            n == list@.len(),
            i <= n,
            forall|k: int| 0 <= k < i ==> showable(#[trigger] list@[k]),
        decreases n - i,
    {
        let d = &list[i];
        let ok = match &d.device {
            Some(dev) => dev.desc.is_some() && d.param.is_some(),
            None => false,
        };
        if !ok {
            assert(!showable(list@[i as int]));
            return None;
        }
        i = i + 1;
    }
    if n > 3 && n - 4 > 7_669_583 {
        return None;
    }
    Some(device_tiles(list))
}

/// The tile index that a clicked border region's name starts with: its
/// first character as a decimal digit; `None` when the name does not start
/// with a digit.
pub open spec fn index_of_region(name: Seq<char>) -> Option<u8> {
    if name.len() >= 1 && '0' <= name[0] <= '9' {
        Some((name[0] as int - 48) as u8)
    } else {
        None
    }
}

/// Reads the tile index from the name of a clicked border region.
pub fn device_index_of(region_name: &str) -> (r: Option<u8>)
    ensures
        r == index_of_region(region_name@),
{
    if region_name.unicode_len() == 0 {
        return None;
    }
    let c = region_name.get_char(0);
    if '0' <= c && c <= '9' {
        Some(((c as u32) - 48) as u8)
    } else {
        None
    }
}

/// A region name written for tile `i` reads back as `i`, for the ten tiles
/// whose index is a single digit.
pub proof fn region_name_round_trip(i: u8)
    requires
        i < 10,
    ensures
        index_of_region(decimal(i as nat) + ":device_border"@) == Some(i),
{
    let name = decimal(i as nat) + ":device_border"@;
    assert(name[0] == decimal(i as nat)[0]);
}

/// A clickable region on screen: its element name and position.
pub struct RegionAt {
    pub name: String,
    pub pos: Point,
}

/// The tile indices of the regions at the clicked position, in the order
/// of `regions`; `None` when such a region's name does not start with a
/// digit.
pub open spec fn clicked_indices(regions: Seq<RegionAt>, clicked: Point) -> Option<Seq<u8>>
    decreases regions.len(),
{
    if regions.len() == 0 {
        Some(Seq::empty())
    } else {
        let before = clicked_indices(regions.drop_last(), clicked);
        let last = regions.last();
        if last.pos != clicked {
            before
        } else {
            match (before, index_of_region(last.name@)) {
                (Some(b), Some(i)) => Some(b.push(i)),
                _ => None,
            }
        }
    }
}

/// The tiles a click at `clicked` hits: the indices read from the names of
/// the regions drawn at exactly that position.
pub fn clicked_tile_indices(regions: &Vec<RegionAt>, clicked: Point) -> (r: Option<Vec<u8>>)
    ensures
        match clicked_indices(regions@, clicked) {
            Some(s) => r is Some && r->0@ == s,
            None => r is None,
        },
{
    let mut found: Vec<u8> = Vec::new();
    let mut ok: bool = true;
    let mut i: usize = 0;
    while i < regions.len()
        invariant
            i <= regions@.len(),
            ok ==> clicked_indices(regions@.subrange(0, i as int), clicked) == Some(found@),
            !ok ==> clicked_indices(regions@.subrange(0, i as int), clicked) is None,
        decreases regions@.len() - i,
    {
        let region = &regions[i];
        assert(regions@.subrange(0, i + 1).drop_last() =~= regions@.subrange(0, i as int));
        if region.pos == clicked {
            match device_index_of(region.name.as_str()) {
                Some(index) => {
                    if ok {
                        found.push(index);
                    }
                },
                None => {
                    ok = false;
                },
            }
        }
        i = i + 1;
    }
    assert(regions@.subrange(0, regions@.len() as int) =~= regions@);
    if ok {
        Some(found)
    } else {
        None
    }
}

/// A region drawn anywhere but exactly at the clicked point (in x or in y)
/// adds nothing to what a click resolves to.
pub proof fn click_ignores_regions_elsewhere(regions: Seq<RegionAt>, r: RegionAt, clicked: Point)
    requires
        r.pos.x != clicked.x || r.pos.y != clicked.y,
    ensures
        clicked_indices(regions.push(r), clicked) == clicked_indices(regions, clicked),
{
    assert(regions.push(r).drop_last() =~= regions);
}

/// A region drawn exactly at the clicked point, whose name starts with the
/// digit of tile `i`, adds `i` after the tiles found before it.
pub proof fn click_adds_region_at_point(regions: Seq<RegionAt>, r: RegionAt, clicked: Point, i: u8)
    requires
        r.pos.x == clicked.x && r.pos.y == clicked.y,
        r.name@.len() >= 1,
        r.name@[0] as int == 48 + i,
        i < 10,
        clicked_indices(regions, clicked) is Some,
    ensures
        clicked_indices(regions.push(r), clicked) == Some(
            clicked_indices(regions, clicked)->0.push(i),
        ),
{
    assert(regions.push(r).drop_last() =~= regions);
    assert(r.pos == clicked);
}

/// Some region drawn exactly at `clicked` (same x and same y) has a name
/// that reads as tile `v`.
pub open spec fn read_at_point(regions: Seq<RegionAt>, clicked: Point, v: u8) -> bool {
    exists|j: int|
        0 <= j < regions.len() && regions[j].pos.x == clicked.x && regions[j].pos.y == clicked.y
            && #[trigger] index_of_region(regions[j].name@) == Some(v)
}

/// Every tile a click resolves to was read from a region drawn exactly at
/// the clicked point (same x and same y).
pub proof fn clicked_tiles_come_from_the_point(regions: Seq<RegionAt>, clicked: Point)
    requires
        clicked_indices(regions, clicked) is Some,
    ensures
        forall|k: int|
            0 <= k < clicked_indices(regions, clicked)->0.len() ==> read_at_point(
                regions,
                clicked,
                #[trigger] clicked_indices(regions, clicked)->0[k],
            ),
    decreases regions.len(),
{
    if regions.len() == 0 {
        assert(clicked_indices(regions, clicked) == Some(Seq::<u8>::empty()));
        return;
    }
    let before = regions.drop_last();
    let last = regions.last();
    clicked_tiles_come_from_the_point(before, clicked);
    let b = clicked_indices(before, clicked)->0;
    assert forall|v: u8| read_at_point(before, clicked, v) implies read_at_point(regions, clicked, v) by {
        let j = choose|j: int|
            0 <= j < before.len() && before[j].pos.x == clicked.x && before[j].pos.y == clicked.y
                && #[trigger] index_of_region(before[j].name@) == Some(v);
        assert(regions[j] == before[j]);
        assert(index_of_region(regions[j].name@) == Some(v));
    }
    if last.pos != clicked {
        assert(clicked_indices(regions, clicked) == clicked_indices(before, clicked));
        assert forall|k: int| 0 <= k < b.len() implies read_at_point(regions, clicked, #[trigger] b[k]) by {
            assert(read_at_point(before, clicked, b[k]));
        }
    } else {
        let i = index_of_region(last.name@)->0;
        assert(clicked_indices(regions, clicked) == Some(b.push(i)));
        let n = regions.len() - 1;
        assert(regions[n] == last);
        assert(index_of_region(regions[n].name@) == Some(i));
        assert(read_at_point(regions, clicked, i));
        assert forall|k: int| 0 <= k < b.len() + 1 implies read_at_point(
            regions,
            clicked,
            #[trigger] b.push(i)[k],
        ) by {
            if k < b.len() {
                assert(b.push(i)[k] == b[k]);
                assert(read_at_point(before, clicked, b[k]));
            }
        }
    }
}

/// No region at the clicked point: the click toggles no tile.
pub proof fn click_elsewhere_toggles_nothing(regions: Seq<RegionAt>, clicked: Point)
    requires
        forall|j: int| 0 <= j < regions.len() ==> regions[j].pos.x != clicked.x || regions[j].pos.y
            != clicked.y,
    ensures
        clicked_indices(regions, clicked) == Some(Seq::<u8>::empty()),
    decreases regions.len(),
{
    if regions.len() > 0 {
        let before = regions.drop_last();
        assert forall|j: int| 0 <= j < before.len() implies before[j].pos.x != clicked.x
            || before[j].pos.y != clicked.y by {
            assert(before[j] == regions[j]);
        }
        click_elsewhere_toggles_nothing(before, clicked);
        assert(regions.last() == regions[regions.len() - 1]);
    }
}

/// The panel has two rows: the first four tiles on the row at y = 1000,
/// every later tile on the row at y = 1280, however long the list.
pub proof fn tiles_fill_two_rows(i: int)
    requires
        0 <= i,
    ensures
        slot_y(i) == 1000 || slot_y(i) == 1280,
        slot_y(i) == 1000 <==> i < 4,
{
}

/// Along a row tiles stand 280 pixels apart; only after the fourth tile does
/// the next one go back to x = 400, one row (280 pixels) lower.
pub proof fn next_tile_position(i: int)
    requires
        0 <= i,
    ensures
        i != 3 ==> slot_x(i + 1) == slot_x(i) + 280 && slot_y(i + 1) == slot_y(i),
        i == 3 ==> slot_x(i + 1) == 400 && slot_y(i + 1) == slot_y(i) + 280,
        slot_x(0) == 400 && slot_y(0) == 1000,
{
}

/// The switch image a random number picks: on for odd numbers.
pub open spec fn switch_of_random(r: u32) -> SwitchIcon {
    if r % 2 == 1 {
        SwitchIcon::On
    } else {
        SwitchIcon::Off
    }
}

/// The switch image a random number picks.
pub fn switch_for_random(r: u32) -> (s: SwitchIcon)
    ensures
        s == switch_of_random(r),
{
    if r % 2 == 1 {
        SwitchIcon::On
    } else {
        SwitchIcon::Off
    }
}

/// `rand::thread_rng().gen::<u32>()`. Trusted for nothing: any `u32` may
/// come back.
#[verifier::external_body]
fn random_u32() -> (r: u32) {
    rand::thread_rng().gen::<u32>()
}

/// The switch image a clicked tile shows next: picked by a random number,
/// on for odd draws. What holds whatever is drawn is only that the result
/// is one of the two images.
pub fn random_switch() -> (s: SwitchIcon)
    ensures
        s is On || s is Off,
{
    let r = random_u32();
    switch_for_random(r)
}

} // verus!
