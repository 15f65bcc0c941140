//! The envelope the home server wraps its replies in.

use vstd::prelude::*;

verus! {

/// Element name of the clock's minute label.
pub const CLOCK_MINUTE: &'static str = "clock_minute";

/// Element name of the clock's hour label.
pub const CLOCK_HOUR: &'static str = "clock_hour";

/// Element name of the day-of-month label.
pub const CLOCK_DATE: &'static str = "clock_date";

/// Element name of the weekday label.
pub const CLOCK_WEEK: &'static str = "clock_week";

/// Element name of the lunar date label.
pub const LUNI_DATE: &'static str = "luni_date";

/// Element name of the charging icon.
pub const BATTERY_STATE_LABEL: &'static str = "battery_state";

/// Element name of the charge level label.
pub const BATTER_DISPLAY_LABEL: &'static str = "batter_display";

/// Element name of the wifi indicator.
pub const WIFI_ICON_LABEL: &'static str = "wifi_icon";

/// A reply of the home server: a status code, an optional error message and
/// the optional payload.
pub struct CommonResponse<T> {
    pub status: u8,
    pub error: Option<String>,
    pub data: Option<T>,
}

} // verus!
