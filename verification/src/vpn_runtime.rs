//! Enabling and disabling VPN routing, and the health check, as plans of
//! shell commands whose outputs decide the outcome.

use vstd::prelude::*;
use vstd::string::StringExecFns;
use crate::system::{
    disable_routing_spec, enable_routing_spec, first_hop_not_isp_spec, flush_dns_spec, is_safe_name,
    ping_spec, route_listed_spec, route_query_spec, trace_spec, valid_ipv4, views, CommandOutput,
    CommandPlan, Platform, SystemHandler,
};

verus! {

/// Appends `b` to `a`.
fn append_all(a: &mut Vec<String>, b: Vec<String>)
    ensures
        views(final(a)@) == views(old(a)@) + views(b@),
{
    let ghost a0 = a@;
    let mut b = b;
    let ghost b0 = b@;
    a.append(&mut b);
    assert(views(a@) =~= views(a0) + views(b0));
}

/// The commands of `enable_vpn` and the index of the one that decides
/// success (`None`: the attempt fails whatever the commands do).
pub open spec fn enable_vpn_spec(adapter: Seq<char>, gw: Seq<char>, dns: Seq<char>, platform: Platform) -> (
    Seq<Seq<char>>,
    Option<int>,
) {
    if gw.len() == 0 || dns.len() == 0 {
        (Seq::empty(), None)
    } else if is_safe_name(adapter) && valid_ipv4(gw) && valid_ipv4(dns) {
        let (cmds, d) = enable_routing_spec(adapter, gw, dns, platform);
        (cmds + flush_dns_spec(platform), Some(d))
    } else {
        (flush_dns_spec(platform), None)
    }
}

/// Enable VPN routing on the adapter via the gateway and DNS server: the
/// routing commands, then the DNS cache flush. Nothing runs and the attempt
/// fails when the gateway or DNS server is empty; only the flush runs and
/// the attempt fails when a value is unsafe.
pub fn enable_vpn(adapter: &str, vpn_gateway: &str, dns_server: &str, platform: Platform) -> (plan:
    CommandPlan)
    ensures
        plan.command_views() == enable_vpn_spec(adapter@, vpn_gateway@, dns_server@, platform).0,
        plan.decisive == match enable_vpn_spec(adapter@, vpn_gateway@, dns_server@, platform).1 {
            Some(d) => Some(d as usize),
            None => None::<usize>,
        },
{
    if vpn_gateway.is_empty() || dns_server.is_empty() {
        return CommandPlan { commands: Vec::new(), decisive: None };
    }
    let routing = SystemHandler::enable_routing(adapter, vpn_gateway, dns_server, platform);
    let flush = SystemHandler::flush_dns(platform);
    match routing {
        Some(plan) => {
            let mut commands = plan.commands;
            append_all(&mut commands, flush);
            CommandPlan { commands, decisive: plan.decisive }
        },
        None => CommandPlan { commands: flush, decisive: None },
    }
}

/// The commands of `disable_vpn`.
pub open spec fn disable_vpn_spec(adapter: Seq<char>, gw: Seq<char>, platform: Platform) -> Seq<Seq<char>> {
    if gw.len() == 0 {
        Seq::empty()
    } else if is_safe_name(adapter) && valid_ipv4(gw) {
        disable_routing_spec(adapter, gw, platform) + flush_dns_spec(platform)
    } else {
        flush_dns_spec(platform)
    }
}

/// Disable VPN routing, restoring the default route, then flush DNS.
/// Nothing runs when no gateway is configured.
pub fn disable_vpn(adapter: &str, vpn_gateway: &str, platform: Platform) -> (cmds: Vec<String>)
    ensures
        views(cmds@) == disable_vpn_spec(adapter@, vpn_gateway@, platform),
{
    if vpn_gateway.is_empty() {
        return Vec::new();
    }
    let routing = SystemHandler::disable_routing(adapter, vpn_gateway, platform);
    let flush = SystemHandler::flush_dns(platform);
    match routing {
        Some(cmds) => {
            let mut cmds = cmds;
            append_all(&mut cmds, flush);
            cmds
        },
        None => flush,
    }
}

// ---------------------------------------------------------------------------
// Health check
// ---------------------------------------------------------------------------

/// Health check result.
#[derive(Clone, Copy, PartialEq, Eq, Debug, Structural)]
pub struct HealthCheck {
    pub vpn_active: bool,
    pub route_exists: bool,
    pub pi_reachable: bool,
}

/// Which question the health check is on.
#[derive(Clone, Copy, PartialEq, Eq, Debug, Structural)]
pub enum HealthStage {
    /// Is the VPN default route in the routing table?
    Route,
    /// Does traffic leave through the VPN rather than the ISP router?
    Trace,
    /// Does the VPN gateway answer a ping?
    Ping,
    Done,
}

/// The health check in progress: the values it checks, the stage it is at
/// and the answers so far.
pub struct HealthProbe {
    pub adapter: String,
    pub vpn_gateway: String,
    pub isp_gateway: String,
    pub platform: Platform,
    pub stage: HealthStage,
    pub result: HealthCheck,
}

pub struct HealthView {
    pub adapter: Seq<char>,
    pub vpn_gateway: Seq<char>,
    pub isp_gateway: Seq<char>,
    pub platform: Platform,
    pub stage: HealthStage,
    pub result: HealthCheck,
}

impl View for HealthProbe {
    type V = HealthView;

    open spec fn view(&self) -> HealthView {
        HealthView {
            adapter: self.adapter@,
            vpn_gateway: self.vpn_gateway@,
            isp_gateway: self.isp_gateway@,
            platform: self.platform,
            stage: self.stage,
            result: self.result,
        }
    }
}

pub open spec fn stage_rank(s: HealthStage) -> nat {
    match s {
        HealthStage::Route => 3,
        HealthStage::Trace => 2,
        HealthStage::Ping => 1,
        HealthStage::Done => 0,
    }
}

/// The route query, when the gateway is set and the values are safe.
pub open spec fn route_command(p: HealthView) -> Option<Seq<char>> {
    if p.vpn_gateway.len() > 0 && is_safe_name(p.adapter) && valid_ipv4(p.vpn_gateway) {
        Some(route_query_spec(p.vpn_gateway, p.adapter, p.platform))
    } else {
        None
    }
}

/// The trace, when the route exists and the ISP gateway is an address.
pub open spec fn trace_command(p: HealthView) -> Option<Seq<char>> {
    if p.result.route_exists && p.isp_gateway.len() > 0 && valid_ipv4(p.isp_gateway) {
        Some(trace_spec(p.platform))
    } else {
        None
    }
}

/// The ping, when the gateway is set and is a safe host name.
pub open spec fn ping_command(p: HealthView) -> Option<Seq<char>> {
    if p.vpn_gateway.len() > 0 && is_safe_name(p.vpn_gateway) {
        Some(ping_spec(p.vpn_gateway, p.platform))
    } else {
        None
    }
}

/// The stage the probe reaches before it needs a command's output: stages
/// that need no command are answered "no" on the way.
pub open spec fn settle(p: HealthView) -> HealthView
    decreases stage_rank(p.stage),
{
    match p.stage {
        HealthStage::Route => if route_command(p) is Some {
            p
        } else {
            settle(
                HealthView {
                    stage: HealthStage::Trace,
                    result: HealthCheck { route_exists: false, ..p.result },
                    ..p
                },
            )
        },
        HealthStage::Trace => if trace_command(p) is Some {
            p
        } else {
            settle(
                HealthView {
                    stage: HealthStage::Ping,
                    result: HealthCheck { vpn_active: false, ..p.result },
                    ..p
                },
            )
        },
        HealthStage::Ping => if ping_command(p) is Some {
            p
        } else {
            HealthView {
                stage: HealthStage::Done,
                result: HealthCheck { pi_reachable: false, ..p.result },
                ..p
            }
        },
        HealthStage::Done => p,
    }
}

/// The command the probe waits for at its stage.
pub open spec fn pending(p: HealthView) -> Option<Seq<char>> {
    match p.stage {
        HealthStage::Route => route_command(p),
        HealthStage::Trace => trace_command(p),
        HealthStage::Ping => ping_command(p),
        HealthStage::Done => None,
    }
}

/// The answer that the output of the pending command gives.
pub open spec fn record(p: HealthView, stdout: Seq<char>, code: i32) -> HealthView {
    match p.stage {
        HealthStage::Route => HealthView {
            stage: HealthStage::Trace,
            result: HealthCheck {
                route_exists: route_listed_spec(p.vpn_gateway, p.platform, stdout, code),
                ..p.result
            },
            ..p
        },
        HealthStage::Trace => HealthView {
            stage: HealthStage::Ping,
            result: HealthCheck {
                vpn_active: first_hop_not_isp_spec(p.isp_gateway, stdout, code),
                ..p.result
            },
            ..p
        },
        HealthStage::Ping => HealthView {
            stage: HealthStage::Done,
            result: HealthCheck { pi_reachable: code == 0, ..p.result },
            ..p
        },
        HealthStage::Done => p,
    }
}

/// The health check at its start: nothing answered yet.
pub open spec fn health_start(adapter: Seq<char>, gw: Seq<char>, isp: Seq<char>, platform: Platform) -> HealthView {
    HealthView {
        adapter,
        vpn_gateway: gw,
        isp_gateway: isp,
        platform,
        stage: HealthStage::Route,
        result: HealthCheck { vpn_active: false, route_exists: false, pi_reachable: false },
    }
}

/// Start a health check against the current VPN state. Run it by asking
/// `next_command` for a command, running it and handing its output to
/// `record_output`, until `next_command` gives `None`; then `result`.
pub fn check_health(adapter: &str, vpn_gateway: &str, isp_gateway: &str, platform: Platform) -> (probe:
    HealthProbe)
    ensures
        probe@ == health_start(adapter@, vpn_gateway@, isp_gateway@, platform),
{
    HealthProbe {
        adapter: String::from_str(adapter),
        vpn_gateway: String::from_str(vpn_gateway),
        isp_gateway: String::from_str(isp_gateway),
        platform,
        stage: HealthStage::Route,
        result: HealthCheck { vpn_active: false, route_exists: false, pi_reachable: false },
    }
}

impl HealthProbe {
    /// Move on to the next stage that needs a command and give that command,
    /// or `None` when the check is complete.
    pub fn next_command(&mut self) -> (cmd: Option<String>)
        ensures
            final(self)@ == settle(old(self)@),
            match cmd {
                Some(c) => pending(settle(old(self)@)) == Some(c@),
                None => pending(settle(old(self)@)) is None,
            },
            cmd is None <==> final(self)@.stage == HealthStage::Done,
        decreases stage_rank(old(self).stage),
    {
        match self.stage {
            HealthStage::Route => {
                if !self.vpn_gateway.as_str().is_empty() {
                    let c = SystemHandler::is_route_active(
                        self.vpn_gateway.as_str(),
                        self.adapter.as_str(),
                        self.platform,
                    );
                    if c.is_some() {
                        return c;
                    }
                }
                self.result.route_exists = false;
                self.stage = HealthStage::Trace;
                self.next_command()
            },
            HealthStage::Trace => {
                if self.result.route_exists && !self.isp_gateway.as_str().is_empty() {
                    let c = SystemHandler::check_connection(self.isp_gateway.as_str(), self.platform);
                    if c.is_some() {
                        return c;
                    }
                }
                self.result.vpn_active = false;
                self.stage = HealthStage::Ping;
                self.next_command()
            },
            HealthStage::Ping => {
                if !self.vpn_gateway.as_str().is_empty() {
                    let c = SystemHandler::ping_host(self.vpn_gateway.as_str(), self.platform);
                    if c.is_some() {
                        return c;
                    }
                }
                self.result.pi_reachable = false;
                self.stage = HealthStage::Done;
                None
            },
            HealthStage::Done => None,
        }
    }

    /// Take the output of the command that `next_command` gave.
    pub fn record_output(&mut self, out: &CommandOutput)
        ensures
            final(self)@ == record(old(self)@, out.stdout@, out.code),
    {
        match self.stage {
            HealthStage::Route => {
                self.result.route_exists = SystemHandler::route_listed(
                    self.vpn_gateway.as_str(),
                    self.platform,
                    out,
                );
                self.stage = HealthStage::Trace;
            },
            HealthStage::Trace => {
                self.result.vpn_active = SystemHandler::first_hop_not_isp(self.isp_gateway.as_str(), out);
                self.stage = HealthStage::Ping;
            },
            HealthStage::Ping => {
                self.result.pi_reachable = out.code == 0;
                self.stage = HealthStage::Done;
            },
            HealthStage::Done => {},
        }
    }

    /// The answers so far (the final answers once the check is complete).
    pub fn result(&self) -> (r: HealthCheck)
        ensures
            r == self@.result,
    {
        self.result
    }
}

/// Answers that hang together: the VPN carries traffic only over its route,
/// and nothing is answered "yes" before its stage.
pub open spec fn consistent(p: HealthView) -> bool {
    &&& p.result.vpn_active ==> p.result.route_exists
    &&& p.stage == HealthStage::Route ==> !p.result.route_exists && !p.result.vpn_active
        && !p.result.pi_reachable
    &&& p.stage == HealthStage::Trace ==> !p.result.vpn_active && !p.result.pi_reachable
    &&& p.stage == HealthStage::Ping ==> !p.result.pi_reachable
}

/// The health check stays consistent through every step of a run: it starts
/// consistent, settling keeps it so, and so does recording any output of
/// the pending command. In particular the VPN is never reported active
/// without its route.
pub proof fn health_check_stays_consistent(p: HealthView, stdout: Seq<char>, code: i32)
    requires
        consistent(p),
    ensures
        consistent(health_start(p.adapter, p.vpn_gateway, p.isp_gateway, p.platform)),
        consistent(settle(p)),
        pending(settle(p)) is Some ==> consistent(record(settle(p), stdout, code)),
    decreases stage_rank(p.stage),
{
    match p.stage {
        HealthStage::Route => {
            if route_command(p) is None {
                let q = HealthView {
                    stage: HealthStage::Trace,
                    result: HealthCheck { route_exists: false, ..p.result },
                    ..p
                };
                health_check_stays_consistent(q, stdout, code);
            }
        },
        HealthStage::Trace => {
            if trace_command(p) is None {
                let q = HealthView {
                    stage: HealthStage::Ping,
                    result: HealthCheck { vpn_active: false, ..p.result },
                    ..p
                };
                health_check_stays_consistent(q, stdout, code);
            }
        },
        _ => {},
    }
}

/// With no VPN gateway configured the check runs no command and answers
/// "no" to every question.
pub proof fn health_check_without_gateway(adapter: Seq<char>, isp: Seq<char>, platform: Platform)
    ensures
        ({
            let s = settle(health_start(adapter, Seq::empty(), isp, platform));
            &&& s.stage == HealthStage::Done
            &&& pending(s) is None
            &&& s.result == HealthCheck { vpn_active: false, route_exists: false, pi_reachable: false }
        }),
{
    let p0 = health_start(adapter, Seq::empty(), isp, platform);
    let p1 = HealthView {
        stage: HealthStage::Trace,
        result: HealthCheck { route_exists: false, ..p0.result },
        ..p0
    };
    let p2 = HealthView {
        stage: HealthStage::Ping,
        result: HealthCheck { vpn_active: false, ..p1.result },
        ..p1
    };
    assert(settle(p0) == settle(p1));
    assert(settle(p1) == settle(p2));
}

} // verus!
