//! The tray daemon's decisions: the VPN state machine with the status it
//! publishes, the health monitor with its drop debouncing and kill switch,
//! the connection attempt, and what the tray menu shows.
//!
//! The daemon's event loop, its timers, the tray icon and the commands it
//! runs are the caller's part; each step here takes what happened and says
//! what to do next.

use vstd::prelude::*;
use vstd::string::StringExecFns;
use crate::config::AppConfig;
use crate::daemon_ipc::DaemonStatus;
use crate::icons::IconColor;
use crate::state::{state_color, VpnState};
use crate::system::{
    first_hop_not_isp_spec, is_safe_name, route_listed_spec, route_query_spec, trace_spec, valid_ipv4,
    views, CommandOutput, CommandPlan, Platform, SystemHandler,
};
use crate::text::{chars_equal, chars_of};
use crate::vpn_runtime::{enable_vpn, enable_vpn_spec, HealthCheck};

verus! {

// ---------------------------------------------------------------------------
// Health monitor
// ---------------------------------------------------------------------------

/// Published states in which the connection is watched.
pub open spec fn watched_state(s: Seq<char>) -> bool {
    s == "Connected"@ || s == "Dropped"@ || s == "ServerUnreachable"@
}

/// What one health check calls for.
#[derive(Clone, Copy, PartialEq, Eq, Debug, Structural)]
pub enum MonitorDecision {
    /// Nothing to report.
    Quiet,
    /// Connected and healthy.
    Healthy,
    /// Traffic flows through the VPN again after a problem.
    Recovered,
    /// Traffic stopped flowing through the VPN route twice in a row: delete
    /// the route and flush DNS, then report the drop (kill switch fired).
    KillSwitch,
    /// The route is gone while the server answers: report the drop.
    RouteLost,
    /// The route is gone while the server answers, and auto-reconnect is
    /// on: reconnect.
    AutoReconnect,
    /// The VPN server does not answer.
    Unreachable,
}

/// The route is there but no traffic goes through the VPN.
pub open spec fn failing(r: HealthCheck) -> bool {
    !r.vpn_active && r.route_exists
}

/// The drop count and decision after one check, from drop count `count`.
pub open spec fn monitor_step(count: nat, connected: bool, r: HealthCheck, auto_reconnect: bool) -> (
    nat,
    MonitorDecision,
) {
    if r.vpn_active && r.route_exists {
        (0, if connected { MonitorDecision::Healthy } else { MonitorDecision::Recovered })
    } else if failing(r) {
        if count + 1 >= 2 {
            (0, MonitorDecision::KillSwitch)
        } else {
            (count + 1, MonitorDecision::Quiet)
        }
    } else if r.pi_reachable {
        (0, if auto_reconnect { MonitorDecision::AutoReconnect } else { MonitorDecision::RouteLost })
    } else {
        (0, MonitorDecision::Unreachable)
    }
}

/// Watches the results of the periodic health checks.
pub struct HealthMonitor {
    drop_count: u32,
}

impl HealthMonitor {
    #[verifier::type_invariant]
    spec fn count_bounded(self) -> bool {
        self.drop_count <= 1
    }

    /// Consecutive checks so far that found the route without traffic.
    pub closed spec fn drops(self) -> nat {
        self.drop_count as nat
    }

    pub fn new() -> (m: HealthMonitor)
        ensures
            m.drops() == 0,
    {
        HealthMonitor { drop_count: 0 }
    }

    /// Should a check run in the published state `state`? When not, the
    /// count of consecutive failures starts over.
    pub fn should_check(&mut self, state: &str) -> (r: bool)
        ensures
            r == watched_state(state@),
            r ==> final(self).drops() == old(self).drops(),
            !r ==> final(self).drops() == 0,
    {
        let s = chars_of(state);
        let r = chars_equal(&s, &chars_of("Connected")) || chars_equal(&s, &chars_of("Dropped"))
            || chars_equal(&s, &chars_of("ServerUnreachable"));
        if !r {
            self.drop_count = 0;
        }
        r
    }

    /// Judge one check's result, made while the published state was
    /// `state`, with the auto-reconnect setting `auto_reconnect`.
    pub fn on_check(&mut self, state: &str, result: HealthCheck, auto_reconnect: bool) -> (d:
        MonitorDecision)
        ensures
            (final(self).drops(), d) == monitor_step(
                old(self).drops(),
                state@ == "Connected"@,
                result,
                auto_reconnect,
            ),
    {
        proof {
            use_type_invariant(&*self);
        }
        let connected = chars_equal(&chars_of(state), &chars_of("Connected"));
        if result.vpn_active && result.route_exists {
            self.drop_count = 0;
            if connected {
                MonitorDecision::Healthy
            } else {
                MonitorDecision::Recovered
            }
        } else if !result.vpn_active && result.route_exists {
            if self.drop_count + 1 >= 2 {
                self.drop_count = 0;
                MonitorDecision::KillSwitch
            } else {
                self.drop_count = self.drop_count + 1;
                MonitorDecision::Quiet
            }
        } else if result.pi_reachable {
            self.drop_count = 0;
            if auto_reconnect {
                MonitorDecision::AutoReconnect
            } else {
                MonitorDecision::RouteLost
            }
        } else {
            self.drop_count = 0;
            MonitorDecision::Unreachable
        }
    }
}

/// Drop debouncing: one check that finds the route without traffic never
/// fires the kill switch; it fires on the second such check in a row, and
/// only then; any other result starts the count over.
pub proof fn kill_switch_needs_two_failures_in_a_row(
    count: nat,
    connected: bool,
    r1: HealthCheck,
    r2: HealthCheck,
    auto: bool,
)
    requires
        count <= 1,
    ensures
        monitor_step(count, connected, r1, auto).1 == MonitorDecision::KillSwitch ==> failing(r1)
            && count == 1,
        monitor_step(0, connected, r1, auto).1 != MonitorDecision::KillSwitch,
        failing(r1) && failing(r2) ==> monitor_step(
            monitor_step(0, connected, r1, auto).0,
            connected,
            r2,
            auto,
        ).1 == MonitorDecision::KillSwitch,
        !failing(r1) ==> monitor_step(count, connected, r1, auto).0 == 0,
{
}

/// Auto-reconnect happens only when the setting is on: with it off the
/// monitor never asks to reconnect.
pub proof fn no_auto_reconnect_when_off(count: nat, connected: bool, r: HealthCheck)
    ensures
        monitor_step(count, connected, r, false).1 != MonitorDecision::AutoReconnect,
{
}

// ---------------------------------------------------------------------------
// Connection attempt
// ---------------------------------------------------------------------------

/// Where a connection attempt is.
#[derive(Clone, Copy, PartialEq, Eq, Debug, Structural)]
pub enum AttemptStage {
    /// Run the enable plan.
    Enable,
    /// Check that the route is really in the table (routing commands can
    /// succeed while something else reverts the route at once).
    VerifyRoute,
    /// Check that traffic really leaves through the VPN.
    VerifyTraffic,
    /// Finished: connected or not.
    Done(bool),
}

/// Enabling the VPN and verifying that it carries traffic before calling
/// it connected.
pub struct ConnectAttempt {
    pub adapter: String,
    pub vpn_gateway: String,
    pub dns_server: String,
    pub isp_gateway: String,
    pub platform: Platform,
    pub stage: AttemptStage,
    pub plan: CommandPlan,
}

pub fn string_or_empty(o: &Option<String>) -> (s: String)
    ensures
        s@ == match o {
            Some(v) => v@,
            None => Seq::<char>::empty(),
        },
{
    match o {
        Some(v) => v.clone(),
        None => String::new(),
    }
}

impl ConnectAttempt {
    /// Start connecting with the gateways and DNS server of `config` (a
    /// missing value counts as empty).
    pub fn start(adapter: &str, config: &AppConfig, platform: Platform) -> (a: ConnectAttempt)
        ensures
            a.stage == AttemptStage::Enable,
            a.adapter@ == adapter@,
            a.platform == platform,
            a.vpn_gateway@ == match config.vpn_gateway {
                Some(v) => v@,
                None => Seq::<char>::empty(),
            },
            a.dns_server@ == match config.dns_server {
                Some(v) => v@,
                None => Seq::<char>::empty(),
            },
            a.isp_gateway@ == match config.isp_gateway {
                Some(v) => v@,
                None => Seq::<char>::empty(),
            },
            a.plan.command_views() == enable_vpn_spec(adapter@, a.vpn_gateway@, a.dns_server@, platform).0,
            a.plan.decisive == match enable_vpn_spec(adapter@, a.vpn_gateway@, a.dns_server@, platform).1 {
                Some(d) => Some(d as usize),
                None => None::<usize>,
            },
    {
        let vpn_gateway = string_or_empty(&config.vpn_gateway);
        let dns_server = string_or_empty(&config.dns_server);
        let isp_gateway = string_or_empty(&config.isp_gateway);
        let plan = enable_vpn(adapter, vpn_gateway.as_str(), dns_server.as_str(), platform);
        ConnectAttempt {
            adapter: String::from_str(adapter),
            vpn_gateway,
            dns_server,
            isp_gateway,
            platform,
            stage: AttemptStage::Enable,
            plan,
        }
    }

    /// The commands to run now (empty when the stage needs none), or
    /// `None` when the attempt is over.
    pub fn next_commands(&self) -> (cmds: Option<Vec<String>>)
        ensures
            self.stage is Done <==> cmds is None,
            self.stage == AttemptStage::Enable ==> (cmds matches Some(v) && views(v@)
                == self.plan.command_views()),
            self.stage == AttemptStage::VerifyRoute ==> (cmds matches Some(v) && views(v@) == if is_safe_name(
                self.adapter@,
            ) && valid_ipv4(self.vpn_gateway@) {
                seq![route_query_spec(self.vpn_gateway@, self.adapter@, self.platform)]
            } else {
                Seq::<Seq<char>>::empty()
            }),
            self.stage == AttemptStage::VerifyTraffic ==> (cmds matches Some(v) && views(v@) == if valid_ipv4(
                self.isp_gateway@,
            ) {
                seq![trace_spec(self.platform)]
            } else {
                Seq::<Seq<char>>::empty()
            }),
    {
        match self.stage {
            AttemptStage::Enable => {
                let v = self.plan.commands.clone();
                assert(views(v@) =~= self.plan.command_views());
                Some(v)
            },
            AttemptStage::VerifyRoute => {
                let mut v: Vec<String> = Vec::new();
                match SystemHandler::is_route_active(
                    self.vpn_gateway.as_str(),
                    self.adapter.as_str(),
                    self.platform,
                ) {
                    Some(c) => v.push(c),
                    None => {},
                }
                Some(v)
            },
            AttemptStage::VerifyTraffic => {
                let mut v: Vec<String> = Vec::new();
                match SystemHandler::check_connection(self.isp_gateway.as_str(), self.platform) {
                    Some(c) => v.push(c),
                    None => {},
                }
                Some(v)
            },
            AttemptStage::Done(_) => None,
        }
    }

    /// Take the outputs of the commands that `next_commands` gave.
    pub fn record(&mut self, outputs: &Vec<CommandOutput>)
        ensures
            final(self).adapter == old(self).adapter,
            final(self).vpn_gateway == old(self).vpn_gateway,
            final(self).isp_gateway == old(self).isp_gateway,
            final(self).platform == old(self).platform,
            old(self).stage == AttemptStage::Enable ==> final(self).stage == if old(
                self,
            ).plan.succeeded_with(outputs@.map_values(|o: CommandOutput| o.code)) {
                AttemptStage::VerifyRoute
            } else {
                AttemptStage::Done(false)
            },
            old(self).stage == AttemptStage::VerifyRoute ==> final(self).stage == if outputs@.len()
                > 0 && route_listed_spec(
                old(self).vpn_gateway@,
                old(self).platform,
                outputs@[0].stdout@,
                outputs@[0].code,
            ) {
                AttemptStage::VerifyTraffic
            } else {
                AttemptStage::Done(false)
            },
            old(self).stage == AttemptStage::VerifyTraffic ==> final(self).stage == AttemptStage::Done(
                outputs@.len() > 0 && first_hop_not_isp_spec(
                    old(self).isp_gateway@,
                    outputs@[0].stdout@,
                    outputs@[0].code,
                ),
            ),
            old(self).stage is Done ==> final(self).stage == old(self).stage,
            final(self).dns_server == old(self).dns_server,
            final(self).plan == old(self).plan,
    {
        match self.stage {
            AttemptStage::Enable => {
                let mut codes: Vec<i32> = Vec::new();
                let mut k: usize = 0;
                while k < outputs.len()
                    invariant
                        k <= outputs@.len(),
                        codes@ == outputs@.take(k as int).map_values(|o: CommandOutput| o.code),
                    decreases outputs@.len() - k,
                {
                    codes.push(outputs[k].code);
                    assert(outputs@.take(k + 1) == outputs@.take(k as int).push(outputs@[k as int]));
                    assert(codes@ =~= outputs@.take(k + 1).map_values(|o: CommandOutput| o.code));
                    k += 1;
                }
                assert(outputs@.take(outputs@.len() as int) == outputs@);
                if self.plan.succeeded(&codes) {
                    self.stage = AttemptStage::VerifyRoute;
                } else {
                    self.stage = AttemptStage::Done(false);
                }
            },
            AttemptStage::VerifyRoute => {
                if outputs.len() > 0 && SystemHandler::route_listed(
                    self.vpn_gateway.as_str(),
                    self.platform,
                    &outputs[0],
                ) {
                    self.stage = AttemptStage::VerifyTraffic;
                } else {
                    self.stage = AttemptStage::Done(false);
                }
            },
            AttemptStage::VerifyTraffic => {
                let ok = outputs.len() > 0 && SystemHandler::first_hop_not_isp(
                    self.isp_gateway.as_str(),
                    &outputs[0],
                );
                self.stage = AttemptStage::Done(ok);
            },
            AttemptStage::Done(_) => {},
        }
    }
}

// ---------------------------------------------------------------------------
// The VPN state machine and its published status
// ---------------------------------------------------------------------------

/// The name the published status uses for a state.
pub open spec fn status_name(v: VpnState) -> Seq<char> {
    match v {
        VpnState::Disabled => "Disabled"@,
        VpnState::Enabling => "Enabling"@,
        VpnState::Connected => "Connected"@,
        VpnState::Dropped => "Dropped"@,
        VpnState::ServerUnreachable => "ServerUnreachable"@,
    }
}

/// The published status names the daemon's state (before setup is
/// complete a disabled daemon says so instead).
pub open spec fn status_matches(v: VpnState, s: Seq<char>) -> bool {
    s == status_name(v) || (v == VpnState::Disabled && s == "SetupIncomplete"@)
}

/// Events from the health monitor and the location lookup.
pub enum HcEvent {
    Dropped { kill_switched: bool },
    Unreachable,
    Recovered,
    Healthy,
    LocationFetched(String),
    AutoReconnect,
}

/// The desktop notification an event calls for, given the state the daemon
/// is in when it arrives: a drop (with or without the kill switch) and an
/// unreachable server are announced when they change the state; nothing
/// else is.
pub open spec fn event_notice_spec(ev: HcEvent, state: VpnState) -> Option<(Seq<char>, Seq<char>)> {
    match ev {
        HcEvent::Dropped { kill_switched } => if state != VpnState::Dropped {
            if kill_switched {
                Some(("Kill switch activated"@, "VPN dropped - routing cleared."@))
            } else {
                Some(("VPN dropped"@, "The VPN route was lost unexpectedly."@))
            }
        } else {
            None
        },
        HcEvent::Unreachable => if state != VpnState::ServerUnreachable {
            Some(("VPN server unreachable"@, "The VPN server does not answer."@))
        } else {
            None
        },
        _ => None,
    }
}

/// The notification (summary, body) to show for `ev` arriving while the
/// daemon is in `state`, if any.
pub fn event_notice(ev: &HcEvent, state: VpnState) -> (n: Option<(String, String)>)
    ensures
        match n {
            Some((summary, body)) => event_notice_spec(*ev, state) == Some((summary@, body@)),
            None => event_notice_spec(*ev, state) is None,
        },
{
    match ev {
        HcEvent::Dropped { kill_switched } => {
            if state == VpnState::Dropped {
                None
            } else if *kill_switched {
                Some((String::from_str("Kill switch activated"), String::from_str("VPN dropped - routing cleared.")))
            } else {
                Some((String::from_str("VPN dropped"), String::from_str("The VPN route was lost unexpectedly.")))
            }
        },
        HcEvent::Unreachable => {
            if state == VpnState::ServerUnreachable {
                None
            } else {
                Some((String::from_str("VPN server unreachable"), String::from_str("The VPN server does not answer.")))
            }
        },
        _ => None,
    }
}

/// What the caller does after an event has been handled.
#[derive(Clone, Copy, PartialEq, Eq, Debug, Structural)]
pub enum Follow {
    /// Nothing changed.
    Nothing,
    /// The status changed: publish it and refresh the tray.
    Publish,
    /// Run a connection attempt (the state is now Enabling), then call
    /// `finish_auto_reconnect` with its outcome.
    Reconnect,
}

/// The daemon's state: the VPN state, the status it publishes, and when
/// the current connection began (Unix seconds).
pub struct Daemon {
    pub vpn_state: VpnState,
    pub status: DaemonStatus,
    pub connected_at: Option<u64>,
}

pub open spec fn location_or_unknown(o: Option<String>) -> Seq<char> {
    match o {
        Some(l) => l@,
        None => "Unknown"@,
    }
}

/// The status fields that the state transitions leave alone.
pub open spec fn same_context(a: DaemonStatus, b: DaemonStatus) -> bool {
    &&& a.adapter == b.adapter
    &&& a.vpn_gateway == b.vpn_gateway
    &&& a.updated_unix == b.updated_unix
}

pub open spec fn opt_view(o: Option<String>) -> Option<Seq<char>> {
    match o {
        Some(s) => Some(s@),
        None => None,
    }
}

impl Daemon {
    /// The daemon at start-up: disabled, publishing "Disabled" (or
    /// "SetupIncomplete" before setup), the last location or "Unknown".
    pub fn new(config: &AppConfig, adapter: &str, now: u64) -> (d: Daemon)
        ensures
            d.vpn_state == VpnState::Disabled,
            d.connected_at is None,
            d.status.state@ == if config.setup_complete {
                "Disabled"@
            } else {
                "SetupIncomplete"@
            },
            d.status.adapter@ == adapter@,
            d.status.location@ == location_or_unknown(config.last_location),
            opt_view(d.status.vpn_gateway) == opt_view(config.vpn_gateway),
            d.status.connected_since_unix is None,
            d.status.message is None,
            d.status.updated_unix == now,
            status_matches(d.vpn_state, d.status.state@),
    {
        let state = if config.setup_complete {
            String::from_str("Disabled")
        } else {
            String::from_str("SetupIncomplete")
        };
        let location = match &config.last_location {
            Some(l) => l.clone(),
            None => String::from_str("Unknown"),
        };
        let vpn_gateway = match &config.vpn_gateway {
            Some(g) => Some(g.clone()),
            None => None,
        };
        Daemon {
            vpn_state: VpnState::Disabled,
            status: DaemonStatus {
                state,
                adapter: String::from_str(adapter),
                location,
                vpn_gateway,
                connected_since_unix: None,
                message: None,
                updated_unix: now,
            },
            connected_at: None,
        }
    }

    pub fn set_enabling(&mut self)
        ensures
            final(self).vpn_state == VpnState::Enabling,
            final(self).status.state@ == "Enabling"@,
            opt_view(final(self).status.message) == Some("Connecting…"@),
            final(self).status.connected_since_unix == old(self).status.connected_since_unix,
            final(self).status.location == old(self).status.location,
            final(self).connected_at == old(self).connected_at,
            same_context(final(self).status, old(self).status),
    {
        self.vpn_state = VpnState::Enabling;
        self.status.state = String::from_str("Enabling");
        self.status.message = Some(String::from_str("Connecting…"));
    }

    pub fn set_connected(&mut self, last_location: &Option<String>, message: Option<String>, now: u64)
        ensures
            final(self).vpn_state == VpnState::Connected,
            final(self).connected_at == Some(now),
            final(self).status.state@ == "Connected"@,
            final(self).status.connected_since_unix == Some(now),
            final(self).status.location@ == location_or_unknown(*last_location),
            final(self).status.message == message,
            same_context(final(self).status, old(self).status),
    {
        self.vpn_state = VpnState::Connected;
        self.connected_at = Some(now);
        self.status.state = String::from_str("Connected");
        self.status.connected_since_unix = Some(now);
        self.status.location = match last_location {
            Some(l) => l.clone(),
            None => String::from_str("Unknown"),
        };
        self.status.message = message;
    }

    /// The user turned the VPN off.
    pub fn set_disabled(&mut self)
        ensures
            final(self).vpn_state == VpnState::Disabled,
            final(self).connected_at is None,
            final(self).status.state@ == "Disabled"@,
            final(self).status.connected_since_unix is None,
            final(self).status.message is None,
            final(self).status.location == old(self).status.location,
            same_context(final(self).status, old(self).status),
    {
        self.vpn_state = VpnState::Disabled;
        self.connected_at = None;
        self.status.state = String::from_str("Disabled");
        self.status.connected_since_unix = None;
        self.status.message = None;
    }

    /// A connection attempt failed.
    pub fn set_failed(&mut self)
        ensures
            final(self).vpn_state == VpnState::Disabled,
            final(self).connected_at == old(self).connected_at,
            final(self).status.state@ == "Disabled"@,
            final(self).status.connected_since_unix is None,
            opt_view(final(self).status.message) == Some("Failed to enable VPN."@),
            final(self).status.location == old(self).status.location,
            same_context(final(self).status, old(self).status),
    {
        self.vpn_state = VpnState::Disabled;
        self.status.state = String::from_str("Disabled");
        self.status.connected_since_unix = None;
        self.status.message = Some(String::from_str("Failed to enable VPN."));
    }

    pub fn set_dropped(&mut self, message: Option<String>)
        ensures
            final(self).vpn_state == VpnState::Dropped,
            final(self).connected_at is None,
            final(self).status.state@ == "Dropped"@,
            final(self).status.connected_since_unix is None,
            final(self).status.message == message,
            final(self).status.location == old(self).status.location,
            same_context(final(self).status, old(self).status),
    {
        self.vpn_state = VpnState::Dropped;
        self.connected_at = None;
        self.status.state = String::from_str("Dropped");
        self.status.connected_since_unix = None;
        self.status.message = message;
    }

    pub fn set_unreachable(&mut self)
        ensures
            final(self).vpn_state == VpnState::ServerUnreachable,
            final(self).connected_at is None,
            final(self).status.state@ == "ServerUnreachable"@,
            final(self).status.connected_since_unix is None,
            opt_view(final(self).status.message) == Some("VPN server unreachable."@),
            final(self).status.location == old(self).status.location,
            same_context(final(self).status, old(self).status),
    {
        self.vpn_state = VpnState::ServerUnreachable;
        self.connected_at = None;
        self.status.state = String::from_str("ServerUnreachable");
        self.status.connected_since_unix = None;
        self.status.message = Some(String::from_str("VPN server unreachable."));
    }

    /// Handle an event from the health monitor or the location lookup.
    pub fn handle_event(&mut self, ev: HcEvent, now: u64) -> (f: Follow)
        ensures
            match ev {
                HcEvent::Healthy => f == Follow::Nothing && *final(self) == *old(self),
                HcEvent::LocationFetched(label) => {
                    &&& f == Follow::Publish
                    &&& final(self).status.location == label
                    &&& final(self).vpn_state == old(self).vpn_state
                    &&& final(self).connected_at == old(self).connected_at
                    &&& final(self).status.state == old(self).status.state
                    &&& final(self).status.message == old(self).status.message
                    &&& final(self).status.connected_since_unix == old(self).status.connected_since_unix
                },
                HcEvent::Recovered => if old(self).vpn_state != VpnState::Connected {
                    &&& f == Follow::Publish
                    &&& final(self).vpn_state == VpnState::Connected
                    &&& final(self).status.state@ == "Connected"@
                    &&& final(self).status.message is None
                    &&& final(self).status.location == old(self).status.location
                    &&& final(self).connected_at == if old(self).connected_at is None {
                        Some(now)
                    } else {
                        old(self).connected_at
                    }
                    &&& final(self).status.connected_since_unix == if old(self).connected_at is None {
                        Some(now)
                    } else {
                        old(self).status.connected_since_unix
                    }
                } else {
                    f == Follow::Nothing && *final(self) == *old(self)
                },
                HcEvent::Dropped { kill_switched } => if old(self).vpn_state != VpnState::Dropped {
                    &&& f == Follow::Publish
                    &&& final(self).vpn_state == VpnState::Dropped
                    &&& final(self).status.state@ == "Dropped"@
                    &&& final(self).connected_at is None
                    &&& final(self).status.connected_since_unix is None
                    &&& final(self).status.location == old(self).status.location
                    &&& opt_view(final(self).status.message) == Some(
                        if kill_switched {
                            "Kill switch activated - routing cleared."@
                        } else {
                            "VPN route lost unexpectedly."@
                        },
                    )
                } else {
                    f == Follow::Nothing && *final(self) == *old(self)
                },
                HcEvent::Unreachable => if old(self).vpn_state != VpnState::ServerUnreachable {
                    &&& f == Follow::Publish
                    &&& final(self).vpn_state == VpnState::ServerUnreachable
                    &&& final(self).status.state@ == "ServerUnreachable"@
                    &&& final(self).connected_at is None
                    &&& final(self).status.connected_since_unix is None
                    &&& final(self).status.location == old(self).status.location
                    &&& opt_view(final(self).status.message) == Some("VPN server unreachable."@)
                } else {
                    f == Follow::Nothing && *final(self) == *old(self)
                },
                HcEvent::AutoReconnect => if old(self).vpn_state == VpnState::Dropped
                    || old(self).vpn_state == VpnState::ServerUnreachable {
                    &&& f == Follow::Reconnect
                    &&& final(self).vpn_state == VpnState::Enabling
                    &&& final(self).status.state@ == "Enabling"@
                    &&& opt_view(final(self).status.message) == Some("Connecting…"@)
                    &&& final(self).connected_at == old(self).connected_at
                    &&& final(self).status.connected_since_unix == old(self).status.connected_since_unix
                    &&& final(self).status.location == old(self).status.location
                } else {
                    f == Follow::Nothing && *final(self) == *old(self)
                },
            },
            same_context(final(self).status, old(self).status),
            status_matches(old(self).vpn_state, old(self).status.state@) ==> status_matches(
                final(self).vpn_state,
                final(self).status.state@,
            ),
    {
        match ev {
            HcEvent::Healthy => Follow::Nothing,
            HcEvent::LocationFetched(label) => {
                self.status.location = label;
                Follow::Publish
            },
            HcEvent::Recovered => {
                if self.vpn_state != VpnState::Connected {
                    self.vpn_state = VpnState::Connected;
                    if self.connected_at.is_none() {
                        self.connected_at = Some(now);
                        self.status.connected_since_unix = Some(now);
                    }
                    self.status.state = String::from_str("Connected");
                    self.status.message = None;
                    Follow::Publish
                } else {
                    Follow::Nothing
                }
            },
            HcEvent::Dropped { kill_switched } => {
                if self.vpn_state != VpnState::Dropped {
                    let msg = if kill_switched {
                        String::from_str("Kill switch activated - routing cleared.")
                    } else {
                        String::from_str("VPN route lost unexpectedly.")
                    };
                    self.set_dropped(Some(msg));
                    Follow::Publish
                } else {
                    Follow::Nothing
                }
            },
            HcEvent::Unreachable => {
                if self.vpn_state != VpnState::ServerUnreachable {
                    self.set_unreachable();
                    Follow::Publish
                } else {
                    Follow::Nothing
                }
            },
            HcEvent::AutoReconnect => {
                if self.vpn_state == VpnState::Dropped || self.vpn_state == VpnState::ServerUnreachable {
                    self.set_enabling();
                    Follow::Reconnect
                } else {
                    Follow::Nothing
                }
            },
        }
    }

    /// The outcome of an automatic reconnection.
    pub fn finish_auto_reconnect(&mut self, connected: bool, last_location: &Option<String>, now: u64)
        ensures
            connected ==> final(self).vpn_state == VpnState::Connected && opt_view(
                final(self).status.message,
            ) == Some("Auto-reconnected after server returned."@)
                && final(self).status.location@ == location_or_unknown(*last_location)
                && final(self).status.state@ == "Connected"@ && final(self).connected_at == Some(now)
                && final(self).status.connected_since_unix == Some(now),
            !connected ==> final(self).vpn_state == VpnState::Dropped && opt_view(
                final(self).status.message,
            ) == Some("Auto-reconnect failed."@) && final(self).status.state@ == "Dropped"@
                && final(self).connected_at is None && final(self).status.connected_since_unix is None
                && final(self).status.location == old(self).status.location,
            status_matches(final(self).vpn_state, final(self).status.state@),
            same_context(final(self).status, old(self).status),
    {
        if connected {
            self.set_connected(
                last_location,
                Some(String::from_str("Auto-reconnected after server returned.")),
                now,
            );
        } else {
            self.set_dropped(Some(String::from_str("Auto-reconnect failed.")));
        }
    }

    /// The outcome of a connection attempt the user asked for (`message`:
    /// what to say on success).
    pub fn finish_attempt(
        &mut self,
        connected: bool,
        last_location: &Option<String>,
        message: Option<String>,
        now: u64,
    )
        ensures
            connected ==> final(self).vpn_state == VpnState::Connected && final(self).status.message
                == message && final(self).status.location@ == location_or_unknown(*last_location)
                && final(self).status.state@ == "Connected"@ && final(self).connected_at == Some(now)
                && final(self).status.connected_since_unix == Some(now),
            !connected ==> final(self).vpn_state == VpnState::Disabled && opt_view(
                final(self).status.message,
            ) == Some("Failed to enable VPN."@) && final(self).status.state@ == "Disabled"@
                && final(self).connected_at == old(self).connected_at
                && final(self).status.connected_since_unix is None
                && final(self).status.location == old(self).status.location,
            status_matches(final(self).vpn_state, final(self).status.state@),
            same_context(final(self).status, old(self).status),
    {
        if connected {
            self.set_connected(last_location, message, now);
        } else {
            self.set_failed();
        }
    }

    /// A new configuration was loaded: publish its gateway and last
    /// location, and once setup is complete leave "SetupIncomplete" behind.
    /// Returns whether the active location should be asked of the backend
    /// (none is known yet but the switcher is configured).
    pub fn on_config_reloaded(&mut self, config: &AppConfig) -> (fetch: bool)
        ensures
            opt_view(final(self).status.vpn_gateway) == opt_view(config.vpn_gateway),
            final(self).status.location@ == location_or_unknown(config.last_location),
            final(self).vpn_state == old(self).vpn_state,
            config.setup_complete && old(self).vpn_state == VpnState::Disabled
                ==> final(self).status.state@ == "Disabled"@,
            !(config.setup_complete && old(self).vpn_state == VpnState::Disabled)
                ==> final(self).status.state == old(self).status.state,
            fetch == (config.last_location is None && config.switcher_url is Some),
            status_matches(old(self).vpn_state, old(self).status.state@) ==> status_matches(
                final(self).vpn_state,
                final(self).status.state@,
            ),
    {
        self.status.vpn_gateway = match &config.vpn_gateway {
            Some(g) => Some(g.clone()),
            None => None,
        };
        self.status.location = match &config.last_location {
            Some(l) => l.clone(),
            None => String::from_str("Unknown"),
        };
        if config.setup_complete && self.vpn_state == VpnState::Disabled {
            self.status.state = String::from_str("Disabled");
        }
        config.last_location.is_none() && config.switcher_url.is_some()
    }
}

/// The published status always names the daemon's VPN state: every
/// transition of the state machine keeps them in step.
pub proof fn status_follows_state(v: VpnState)
    ensures
        status_matches(v, status_name(v)),
        status_matches(VpnState::Disabled, "SetupIncomplete"@),
{
}

/// What to do at start-up.
#[derive(Clone, Copy, PartialEq, Eq, Debug, Structural)]
pub enum StartupAction {
    /// Connect to the last used location.
    AutoConnect,
    /// Make sure routing is in the non-VPN state (recovers from a crash
    /// that left the VPN route in place).
    EnsureDisabled,
    /// First run: open the setup dialog.
    OpenSetup,
}

pub open spec fn startup_spec(setup_complete: bool, auto_connect: bool) -> StartupAction {
    if setup_complete && auto_connect {
        StartupAction::AutoConnect
    } else if setup_complete {
        StartupAction::EnsureDisabled
    } else {
        StartupAction::OpenSetup
    }
}

pub fn startup_action(config: &AppConfig) -> (a: StartupAction)
    ensures
        a == startup_spec(config.setup_complete, config.auto_connect),
{
    if config.setup_complete && config.auto_connect {
        StartupAction::AutoConnect
    } else if config.setup_complete {
        StartupAction::EnsureDisabled
    } else {
        StartupAction::OpenSetup
    }
}

/// What the menu's enable/disable item does.
#[derive(Clone, Copy, PartialEq, Eq, Debug, Structural)]
pub enum ToggleAction {
    /// Turn the VPN off, then `set_disabled`.
    Disable,
    /// `set_enabling`, run a connection attempt, then `finish_attempt`.
    Enable,
}

pub fn toggle_action(state: VpnState) -> (a: ToggleAction)
    ensures
        a == if state == VpnState::Connected {
            ToggleAction::Disable
        } else {
            ToggleAction::Enable
        },
{
    if state == VpnState::Connected {
        ToggleAction::Disable
    } else {
        ToggleAction::Enable
    }
}

// ---------------------------------------------------------------------------
// Tray presentation
// ---------------------------------------------------------------------------

/// The tray's label for a state (the location is shown when connected).
pub open spec fn tray_label_spec(state: VpnState, location: Option<Seq<char>>) -> Seq<char> {
    match state {
        VpnState::Connected => "Connected - "@ + match location {
            Some(l) => l,
            None => "Unknown"@,
        },
        VpnState::Dropped => "Connection Dropped"@,
        VpnState::ServerUnreachable => "Server Unreachable"@,
        VpnState::Enabling => "Connecting…"@,
        VpnState::Disabled => "Disconnected"@,
    }
}

pub fn tray_label(state: VpnState, location: Option<&str>) -> (l: String)
    ensures
        l@ == tray_label_spec(
            state,
            match location {
                Some(s) => Some(s@),
                None => None,
            },
        ),
{
    match state {
        VpnState::Connected => {
            let mut l = String::from_str("Connected - ");
            match location {
                Some(s) => l.append(s),
                None => l.append("Unknown"),
            }
            l
        },
        VpnState::Dropped => String::from_str("Connection Dropped"),
        VpnState::ServerUnreachable => String::from_str("Server Unreachable"),
        VpnState::Enabling => String::from_str("Connecting…"),
        VpnState::Disabled => String::from_str("Disconnected"),
    }
}

/// The enabled flags and the toggle item's text of the tray menu.
pub struct MenuState {
    /// Status dashboard, settings, exit, and the behaviour check items.
    pub general_enabled: bool,
    pub toggle_text: &'static str,
    pub toggle_enabled: bool,
    pub location_enabled: bool,
}

/// While a dialog is open the menu is locked; otherwise the toggle offers
/// to disable when connected and to enable otherwise, and is usable once
/// setup is complete and no connection attempt is running.
pub fn menu_state(dialog_open: bool, state: VpnState, setup_done: bool) -> (m: MenuState)
    ensures
        m.general_enabled == !dialog_open,
        m.toggle_enabled == (!dialog_open && setup_done && state != VpnState::Enabling),
        m.location_enabled == (!dialog_open && setup_done),
        m.toggle_text@ == if state == VpnState::Connected {
            "Disable VPN"@
        } else {
            "Enable VPN"@
        },
{
    let toggle_text = if state == VpnState::Connected {
        "Disable VPN"
    } else {
        "Enable VPN"
    };
    MenuState {
        general_enabled: !dialog_open,
        toggle_text,
        toggle_enabled: !dialog_open && setup_done && state != VpnState::Enabling,
        location_enabled: !dialog_open && setup_done,
    }
}

/// The tray icon's colour for a state.
pub fn tray_color(state: VpnState) -> (c: IconColor)
    ensures
        c == state_color(state),
{
    state.color()
}

} // verus!
