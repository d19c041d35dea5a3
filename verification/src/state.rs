//! The VPN connection state machine's states and the runtime state shared
//! between the interface and the background monitor.

use vstd::prelude::*;
use vstd::string::StringExecFns;
use crate::icons::IconColor;

verus! {

#[verifier::external_type_specification]
#[verifier::external_body]
pub struct ExInstant(std::time::Instant);

/// VPN connection state machine.
#[derive(Debug, Clone, Copy, PartialEq, Eq, Structural)]
pub enum VpnState {
    Disabled,
    Enabling,
    Connected,
    Dropped,
    ServerUnreachable,
}

/// The name of a state as the interface shows it.
pub open spec fn state_name(s: VpnState) -> Seq<char> {
    match s {
        VpnState::Disabled => "Disabled"@,
        VpnState::Enabling => "Enabling..."@,
        VpnState::Connected => "Connected"@,
        VpnState::Dropped => "Dropped"@,
        VpnState::ServerUnreachable => "Server Unreachable"@,
    }
}

/// The colour of a state: green when connected, red when dropped, grey when
/// the server is unreachable, blue while enabling, yellow when disabled.
pub open spec fn state_color(s: VpnState) -> IconColor {
    match s {
        VpnState::Connected => IconColor { r: 0x4C, g: 0xAF, b: 0x50 },
        VpnState::Dropped => IconColor { r: 0xF4, g: 0x43, b: 0x36 },
        VpnState::ServerUnreachable => IconColor { r: 0x9E, g: 0x9E, b: 0x9E },
        VpnState::Enabling => IconColor { r: 0x21, g: 0x96, b: 0xF3 },
        VpnState::Disabled => IconColor { r: 0xFF, g: 0xC1, b: 0x07 },
    }
}

impl VpnState {
    pub fn as_str(&self) -> (r: &'static str)
        ensures
            r@ == state_name(*self),
    {
        match self {
            VpnState::Disabled => "Disabled",
            VpnState::Enabling => "Enabling...",
            VpnState::Connected => "Connected",
            VpnState::Dropped => "Dropped",
            VpnState::ServerUnreachable => "Server Unreachable",
        }
    }

    pub fn color(&self) -> (c: IconColor)
        ensures
            c == state_color(*self),
    {
        match self {
            VpnState::Connected => IconColor::green(),
            VpnState::Dropped => IconColor::red(),
            VpnState::ServerUnreachable => IconColor::gray(),
            VpnState::Enabling => IconColor::blue(),
            VpnState::Disabled => IconColor::yellow(),
        }
    }
}

/// Every state has its own colour, none of them black; connected is
/// green-dominant and dropped is red-dominant.
pub proof fn state_colors_distinct(a: VpnState, b: VpnState)
    ensures
        a != b ==> state_color(a) != state_color(b),
        state_color(a).r > 0 || state_color(a).g > 0 || state_color(a).b > 0,
        state_color(VpnState::Connected).g > state_color(VpnState::Connected).r,
        state_color(VpnState::Connected).g > state_color(VpnState::Connected).b,
        state_color(VpnState::Dropped).r > state_color(VpnState::Dropped).g,
        state_color(VpnState::Dropped).r > state_color(VpnState::Dropped).b,
{
}

/// Global runtime state shared between the interface and background work.
pub struct AppState {
    pub vpn_state: VpnState,
    pub vpn_location: String,
    pub connection_start_time: Option<std::time::Instant>,
    pub adapter_name: String,
    pub manual_disable: bool,
}

impl Default for AppState {
    fn default() -> (s: Self)
        ensures
            s.vpn_state == VpnState::Disabled,
            s.vpn_location@ == "Unknown"@,
            s.connection_start_time is None,
            s.adapter_name@ == "auto"@,
            s.manual_disable,
    {
        AppState {
            vpn_state: VpnState::Disabled,
            vpn_location: String::from_str("Unknown"),
            connection_start_time: None,
            adapter_name: String::from_str("auto"),
            manual_disable: true,
        }
    }
}

/// Result from the background network monitor.
#[derive(Debug, Clone, Copy, PartialEq, Eq, Structural)]
pub struct NetworkCheckResult {
    pub vpn_active: bool,
    pub route_exists: bool,
    pub pi_reachable: bool,
}

} // verus!
