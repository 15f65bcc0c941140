//! Decision and layout logic of a reMarkable e-ink dashboard: clock, weather,
//! wifi, battery and smart-device panels.

pub mod text;
pub mod clock;
pub mod weather;
pub mod wifi;
pub mod control;
pub mod battery;
pub mod common;
