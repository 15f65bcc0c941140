//! The battery indicator: what a fresh reading of the charger status and
//! the charge level changes on screen.

use vstd::prelude::*;
use crate::common::{BATTERY_STATE_LABEL, BATTER_DISPLAY_LABEL};
use crate::text::{push_signed_decimal, same_text, signed_decimal, text_view};
use crate::weather::Point;

verus! {

/// What the indicator last showed: the charger status (none before the
/// first reading) and the charge level in percent.
pub struct BatteryMemo {
    pub status: Option<String>,
    pub percent: i32,
}

/// What happens to the charging icon.
#[derive(Clone, Copy, Debug, PartialEq, Eq, Structural)]
pub enum ChargingIcon {
    /// Status unchanged: leave the icon as it is.
    Keep,
    /// Status changed to "Charging": show the icon.
    Show,
    /// Status changed to anything else: remove the icon.
    Remove,
}

/// What a reading changes on screen, with the names and positions of the
/// two elements of the indicator.
pub struct BatteryPlan {
    pub charging_icon: ChargingIcon,
    /// The new charge text ("<percent>%"), when the level changed.
    pub percent_text: Option<String>,
    pub icon_name: &'static str,
    pub icon_pos: Point,
    pub text_name: &'static str,
    pub text_pos: Point,
}

impl BatteryMemo {
    /// The indicator before the first reading.
    pub fn new() -> (m: BatteryMemo)
        ensures
            m.status is None,
            m.percent == 0,
    {
        BatteryMemo { status: None, percent: 0 }
    }
}

/// The status the indicator compares a reading with: the last one, or the
/// empty text before the first.
pub open spec fn last_status(m: &BatteryMemo) -> Seq<char> {
    match m.status {
        Some(s) => s@,
        None => Seq::empty(),
    }
}

/// The fate of the charging icon for a reading `status`.
pub open spec fn icon_change(m: &BatteryMemo, status: Seq<char>) -> ChargingIcon {
    if status == last_status(m) {
        ChargingIcon::Keep
    } else if status == "Charging"@ {
        ChargingIcon::Show
    } else {
        ChargingIcon::Remove
    }
}

/// The new charge text for a reading `percent`: "<percent>%" when the level
/// changed, nothing otherwise.
pub open spec fn percent_change(m: &BatteryMemo, percent: i32) -> Option<Seq<char>> {
    if percent != m.percent {
        Some(signed_decimal(percent as int) + "%"@)
    } else {
        None
    }
}

/// Decides what a reading (`status`, `percent`) changes, and records it in
/// the memo.
pub fn plan_battery(memo: &mut BatteryMemo, status: &str, percent: i32) -> (p: BatteryPlan)
    ensures
        p.charging_icon == icon_change(old(memo), status@),
        text_view(final(memo).status) == (if status@ == last_status(old(memo)) {
            text_view(old(memo).status)
        } else {
            Some(status@)
        }),
        final(memo).percent == percent,
        text_view(p.percent_text) == percent_change(old(memo), percent),
        p.icon_name@ == "battery_state"@,
        p.icon_pos == (Point { x: 1720, y: 120 }),
        p.text_name@ == "batter_display"@,
        p.text_pos == (Point { x: 1770, y: 155 }),
{
    proof {
        reveal_strlit("");
        assert(""@ =~= Seq::<char>::empty());
    }
    let last_is_same = match &memo.status {
        Some(s) => same_text(status, s.as_str()),
        None => same_text(status, ""),
    };
    let charging_icon = if last_is_same {
        ChargingIcon::Keep
    } else {
        memo.status = Some(String::from_str(status));
        if same_text(status, "Charging") {
            ChargingIcon::Show
        } else {
            ChargingIcon::Remove
        }
    };
    let percent_text = if percent != memo.percent {
        memo.percent = percent;
        let mut t = String::new();
        push_signed_decimal(&mut t, percent);
        t.append("%");
        Some(t)
    } else {
        None
    };
    BatteryPlan {
        charging_icon,
        percent_text,
        icon_name: BATTERY_STATE_LABEL,
        icon_pos: Point { x: 1720, y: 120 },
        text_name: BATTER_DISPLAY_LABEL,
        text_pos: Point { x: 1770, y: 155 },
    }
}

/// The charging icon follows the charger: a changed status shows it exactly
/// when the new status is "Charging"; any other new status ("Full",
/// "Discharging", "Not charging", ...) removes it; an unchanged status
/// leaves it alone.
pub proof fn charging_icon_follows_status(m: BatteryMemo, status: Seq<char>)
    ensures
        icon_change(&m, status) == ChargingIcon::Show <==> (status != last_status(&m) && status
            == "Charging"@),
        icon_change(&m, status) == ChargingIcon::Remove <==> (status != last_status(&m) && status
            != "Charging"@),
        icon_change(&m, status) == ChargingIcon::Keep <==> status == last_status(&m),
{
}

/// A reading other than "Charging" never shows the charging icon.
pub proof fn only_charging_shows_the_icon(m: BatteryMemo, status: Seq<char>)
    requires
        status != "Charging"@,
    ensures
        icon_change(&m, status) != ChargingIcon::Show,
{
}

/// A reading that was just recorded changes nothing when it comes again.
pub proof fn battery_settles(m: BatteryMemo, status: Seq<char>, percent: i32, next: BatteryMemo)
    requires
        text_view(next.status) == (if status == last_status(&m) {
            text_view(m.status)
        } else {
            Some(status)
        }),
        next.percent == percent,
    ensures
        icon_change(&next, status) == ChargingIcon::Keep,
        percent_change(&next, percent) is None,
{
}

} // verus!
