//! The wifi indicator: reading the radio's state from `iw` output, the
//! icon it shows, and the decisions of the connect loop.

use vstd::prelude::*;
use crate::common::WIFI_ICON_LABEL;
use crate::weather::Point;
use crate::text::{contains_text, decimal, occurs_in, push_decimal, same_text};

verus! {

/// The radio's state; the payload is the state's code (0 unable, 1 enabled
/// but not connected, 2 connected).
#[derive(Clone, Copy, Debug, PartialEq, Eq, Structural)]
pub enum WifiState {
    Unable(u8),
    Enable(u8),
    Connected(u8),
}

/// The state that `iw wlan0 info` output describes: a radio that reports no
/// transmit power is off; one whose ESSID is "off/any" is on but not
/// connected; otherwise it is connected.
pub open spec fn wifi_state_of(output: Seq<char>) -> WifiState {
    if !occurs_in(output, "txpower"@) {
        WifiState::Unable(0)
    } else if occurs_in(output, "ESSID:off/any"@) {
        WifiState::Enable(1)
    } else {
        WifiState::Connected(2)
    }
}

/// Classifies the output of `iw wlan0 info`.
pub fn wifi_state_from_info(output: &str) -> (s: WifiState)
    ensures
        s == wifi_state_of(output@),
{
    if !contains_text(output, "txpower") {
        WifiState::Unable(0)
    } else if contains_text(output, "ESSID:off/any") {
        WifiState::Enable(1)
    } else {
        WifiState::Connected(2)
    }
}

/// The code a state carries.
pub open spec fn state_code(s: WifiState) -> u8 {
    match s {
        WifiState::Unable(c) => c,
        WifiState::Enable(c) => c,
        WifiState::Connected(c) => c,
    }
}

/// A classified state carries the code of its kind: 0 unable, 1 enabled,
/// 2 connected.
pub proof fn classified_codes(output: Seq<char>)
    ensures
        wifi_state_of(output) is Unable <==> state_code(wifi_state_of(output)) == 0,
        wifi_state_of(output) is Enable <==> state_code(wifi_state_of(output)) == 1,
        wifi_state_of(output) is Connected <==> state_code(wifi_state_of(output)) == 2,
{
}

/// The name a state gives the wifi icon element: the state as `{:?}` prints it.
pub open spec fn state_label(s: WifiState) -> Seq<char> {
    match s {
        WifiState::Unable(c) => "Unable("@ + decimal(c as nat) + ")"@,
        WifiState::Enable(c) => "Enable("@ + decimal(c as nat) + ")"@,
        WifiState::Connected(c) => "Connected("@ + decimal(c as nat) + ")"@,
    }
}

/// The name of the wifi icon element for a state, such as "Connected(2)".
pub fn wifi_state_label(s: WifiState) -> (r: String)
    ensures
        r@ == state_label(s),
{
    let (head, code): (&str, u8) = match s {
        WifiState::Unable(c) => ("Unable(", c),
        WifiState::Enable(c) => ("Enable(", c),
        WifiState::Connected(c) => ("Connected(", c),
    };
    let mut r = String::from_str(head);
    push_decimal(&mut r, code as u64);
    r.append(")");
    r
}

/// The images of the wifi indicator.
#[derive(Clone, Copy, Debug, PartialEq, Eq, Structural)]
pub enum WifiIcon {
    Off,
    On,
    Connected,
}

/// The image that shows a state.
pub open spec fn icon_for(s: WifiState) -> WifiIcon {
    match s {
        WifiState::Unable(_) => WifiIcon::Off,
        WifiState::Enable(_) => WifiIcon::On,
        WifiState::Connected(_) => WifiIcon::Connected,
    }
}

/// The image that shows a state.
pub fn wifi_icon(s: WifiState) -> (r: WifiIcon)
    ensures
        r == icon_for(s),
{
    match s {
        WifiState::Unable(_) => WifiIcon::Off,
        WifiState::Enable(_) => WifiIcon::On,
        WifiState::Connected(_) => WifiIcon::Connected,
    }
}

/// Whether the wifi icon must be drawn for state `s`, given the name of the
/// icon on screen (`None` when there is none yet): only when it does not
/// already show that state.
pub open spec fn redraw_needed(shown: Option<Seq<char>>, s: WifiState) -> bool {
    shown != Some(state_label(s))
}

/// The characters of an optional string slice.
pub open spec fn shown_view(shown: Option<&str>) -> Option<Seq<char>> {
    match shown {
        Some(name) => Some(name@),
        None => None,
    }
}

/// Decides whether the wifi icon must be drawn (see `redraw_needed`).
pub fn wifi_icon_needs_redraw(shown: Option<&str>, s: WifiState) -> (r: bool)
    ensures
        r == redraw_needed(shown_view(shown), s),
{
    match shown {
        Some(name) => {
            let label = wifi_state_label(s);
            !same_text(name, label.as_str())
        },
        None => true,
    }
}

/// Once the icon shows a state, the same state asks for no redraw.
pub proof fn redraw_settles(s: WifiState)
    ensures
        !redraw_needed(Some(state_label(s)), s),
{
}

/// The three classified states have distinct icon names, so a change of
/// state is always redrawn.
pub proof fn state_change_redraws(o1: Seq<char>, o2: Seq<char>)
    requires
        wifi_state_of(o1) != wifi_state_of(o2),
    ensures
        state_label(wifi_state_of(o1)) != state_label(wifi_state_of(o2)),
        redraw_needed(Some(state_label(wifi_state_of(o1))), wifi_state_of(o2)),
{
    reveal_strlit("Unable(");
    reveal_strlit("Enable(");
    reveal_strlit("Connected(");
    let l1 = state_label(wifi_state_of(o1));
    let l2 = state_label(wifi_state_of(o2));
    assert(l1[0] != l2[0]);
}

/// How the wifi indicator is drawn for a state: its element name, the name
/// the icon carries (the state's label), the image, its position, and that
/// a click on it runs the click decision (`click_turns_wifi_on`).
pub struct WifiIconView {
    pub element: &'static str,
    pub label: String,
    pub icon: WifiIcon,
    pub pos: Point,
    pub clickable: bool,
}

/// How the wifi indicator is drawn for state `s`.
pub fn wifi_icon_view(s: WifiState) -> (v: WifiIconView)
    ensures
        v.element@ == "wifi_icon"@,
        v.label@ == state_label(s),
        v.icon == icon_for(s),
        v.pos == (Point { x: 1760, y: 50 }),
        v.clickable,
{
    WifiIconView {
        element: WIFI_ICON_LABEL,
        label: wifi_state_label(s),
        icon: wifi_icon(s),
        pos: Point { x: 1760, y: 50 },
        clickable: true,
    }
}

/// What a click on the wifi icon does: only a radio that is off is turned on.
pub fn click_turns_wifi_on(s: WifiState) -> (r: bool)
    ensures
        r == (s is Unable),
{
    match s {
        WifiState::Unable(_) => true,
        _ => false,
    }
}

/// How many times the connect loop looks at the radio (once a second).
pub const CONNECT_ATTEMPTS: u32 = 14;

/// One step of the loop that waits for a connection after the radio was
/// turned on.
#[derive(Clone, Copy, Debug, PartialEq, Eq, Structural)]
pub enum ConnectStep {
    /// The radio went off: turn it on again and keep waiting.
    TurnOn,
    /// On but not connected yet: keep waiting.
    Wait,
    /// Connected: stop waiting.
    Done,
}

/// The step the connect loop takes after seeing state `s`.
pub fn connect_step(s: WifiState) -> (r: ConnectStep)
    ensures
        r == (match s {
            WifiState::Unable(_) => ConnectStep::TurnOn,
            WifiState::Enable(_) => ConnectStep::Wait,
            WifiState::Connected(_) => ConnectStep::Done,
        }),
{
    match s {
        WifiState::Unable(_) => ConnectStep::TurnOn,
        WifiState::Enable(_) => ConnectStep::Wait,
        WifiState::Connected(_) => ConnectStep::Done,
    }
}

/// How the connect loop ends after a check.
#[derive(Clone, Copy, Debug, PartialEq, Eq, Structural)]
pub enum WaitFinish {
    /// Look again after a second.
    Continue,
    /// Connected: stop at once, without redrawing the indicator.
    Connected,
    /// The last check came without a connection: stop and redraw the indicator.
    GiveUp,
}

/// What the connect loop does after its check number `checks_done + 1`.
#[derive(Clone, Copy, Debug, PartialEq, Eq, Structural)]
pub struct WaitStep {
    /// Turn the radio on (again).
    pub turn_on: bool,
    pub finish: WaitFinish,
    /// Redraw the wifi indicator before leaving the loop.
    pub redraw_icon: bool,
}

/// The step after check number `checks_done + 1` saw state `s`.
pub open spec fn spec_wait_step(checks_done: u32, s: WifiState) -> WaitStep {
    let finish = if s is Connected {
        WaitFinish::Connected
    } else if checks_done + 1 == CONNECT_ATTEMPTS {
        WaitFinish::GiveUp
    } else {
        WaitFinish::Continue
    };
    WaitStep { turn_on: s is Unable, finish, redraw_icon: finish == WaitFinish::GiveUp }
}

/// Decides the step of the connect loop after check number
/// `checks_done + 1`, which saw state `s`.
pub fn connect_wait_step(checks_done: u32, s: WifiState) -> (r: WaitStep)
    requires
        checks_done < CONNECT_ATTEMPTS,
    ensures
        r == spec_wait_step(checks_done, s),
{
    let step = connect_step(s);
    let finish = if step == ConnectStep::Done {
        WaitFinish::Connected
    } else if checks_done + 1 == CONNECT_ATTEMPTS {
        WaitFinish::GiveUp
    } else {
        WaitFinish::Continue
    };
    WaitStep {
        turn_on: step == ConnectStep::TurnOn,
        finish,
        redraw_icon: finish == WaitFinish::GiveUp,
    }
}

/// The connect loop ends by its last check, and it redraws the indicator
/// only when it gives up.
pub proof fn connect_wait_ends(checks_done: u32, s: WifiState)
    requires
        checks_done < CONNECT_ATTEMPTS,
    ensures
        checks_done + 1 == CONNECT_ATTEMPTS ==> spec_wait_step(checks_done, s).finish
            != WaitFinish::Continue,
        spec_wait_step(checks_done, s).redraw_icon <==> !(s is Connected) && checks_done + 1
            == CONNECT_ATTEMPTS,
{
}

/// A connected radio ends the wait at once, at any check: nothing is turned
/// on and nothing redrawn.
pub proof fn connected_stops_at_once(checks_done: u32, code: u8)
    requires
        checks_done < CONNECT_ATTEMPTS,
    ensures
        spec_wait_step(checks_done, WifiState::Connected(code)) == (WaitStep {
            turn_on: false,
            finish: WaitFinish::Connected,
            redraw_icon: false,
        }),
{
}

/// A radio found off is turned on again, and a radio that is on but not
/// connected is simply waited for, as long as checks remain.
pub proof fn unconnected_keeps_waiting(checks_done: u32, s: WifiState)
    requires
        checks_done + 1 < CONNECT_ATTEMPTS,
        !(s is Connected),
    ensures
        spec_wait_step(checks_done, s).finish == WaitFinish::Continue,
        spec_wait_step(checks_done, s).turn_on <==> s is Unable,
        !spec_wait_step(checks_done, s).redraw_icon,
{
}

/// The wait stops only when connected or at the last check.
pub proof fn wait_stops_only_when_done(checks_done: u32, s: WifiState)
    requires
        checks_done < CONNECT_ATTEMPTS,
    ensures
        spec_wait_step(checks_done, s).finish != WaitFinish::Continue <==> (s is Connected
            || checks_done + 1 == CONNECT_ATTEMPTS),
        spec_wait_step(checks_done, s).finish == WaitFinish::Connected <==> s is Connected,
{
}

/// The directories where `ifconfig` and `iw` live.
pub open spec fn system_dirs() -> Seq<char> {
    "/usr/sbin:/sbin"@
}

/// The search path for the network tools: the inherited `PATH` (if any)
/// followed by the system directories.
pub fn search_path(inherited: Option<String>) -> (r: String)
    ensures
        r@ == (match inherited {
            Some(p) => p@ + ":"@ + system_dirs(),
            None => system_dirs(),
        }),
{
    match inherited {
        Some(p) => {
            let mut r = p;
            r.append(":");
            r.append("/usr/sbin:/sbin");
            r
        },
        None => String::from_str("/usr/sbin:/sbin"),
    }
}

/// The search path always ends with the system directories, so the tools
/// are found whatever `PATH` was inherited.
pub proof fn search_path_ends_with_system_dirs(inherited: Option<Seq<char>>)
    ensures
        crate::text::ends_with(
            match inherited {
                Some(p) => p + ":"@ + system_dirs(),
                None => system_dirs(),
            },
            system_dirs(),
        ),
{
    match inherited {
        Some(p) => {
            let whole = p + ":"@ + system_dirs();
            assert(whole.subrange(whole.len() - system_dirs().len(), whole.len() as int)
                =~= system_dirs());
        },
        None => {
            assert(system_dirs().subrange(0, system_dirs().len() as int) =~= system_dirs());
        },
    }
}

} // verus!
