use dragonfox_vpn::config::AppConfig;
use dragonfox_vpn::daemon::{
    event_notice, menu_state, startup_action, toggle_action, tray_color, tray_label, AttemptStage,
    ConnectAttempt, Daemon, Follow, HcEvent, HealthMonitor, MonitorDecision, StartupAction,
    ToggleAction,
};
use dragonfox_vpn::state::VpnState;
use dragonfox_vpn::system::{CommandOutput, Platform};
use dragonfox_vpn::vpn_runtime::HealthCheck;

fn hc(vpn_active: bool, route_exists: bool, pi_reachable: bool) -> HealthCheck {
    HealthCheck { vpn_active, route_exists, pi_reachable }
}

fn out(stdout: &str, code: i32) -> CommandOutput {
    CommandOutput { stdout: stdout.to_string(), stderr: String::new(), code }
}

#[test]
fn kill_switch_fires_on_second_failure_in_a_row() {
    let mut m = HealthMonitor::new();
    assert!(m.should_check("Connected"));
    assert_eq!(m.on_check("Connected", hc(false, true, true), false), MonitorDecision::Quiet);
    assert_eq!(m.on_check("Connected", hc(false, true, true), false), MonitorDecision::KillSwitch);
    // The count starts over after firing.
    assert_eq!(m.on_check("Connected", hc(false, true, true), false), MonitorDecision::Quiet);
}

#[test]
fn a_healthy_check_resets_the_failure_count() {
    let mut m = HealthMonitor::new();
    assert_eq!(m.on_check("Connected", hc(false, true, true), false), MonitorDecision::Quiet);
    assert_eq!(m.on_check("Connected", hc(true, true, true), false), MonitorDecision::Healthy);
    assert_eq!(m.on_check("Connected", hc(false, true, true), false), MonitorDecision::Quiet);
}

#[test]
fn leaving_the_watched_states_resets_the_failure_count() {
    let mut m = HealthMonitor::new();
    assert_eq!(m.on_check("Connected", hc(false, true, true), false), MonitorDecision::Quiet);
    assert!(!m.should_check("Disabled"));
    assert!(!m.should_check("Enabling"));
    assert!(m.should_check("Dropped"));
    assert!(m.should_check("ServerUnreachable"));
    assert_eq!(m.on_check("Connected", hc(false, true, true), false), MonitorDecision::Quiet);
}

#[test]
fn monitor_decisions_for_each_result() {
    let mut m = HealthMonitor::new();
    assert_eq!(m.on_check("Dropped", hc(true, true, true), false), MonitorDecision::Recovered);
    assert_eq!(m.on_check("Connected", hc(false, false, true), false), MonitorDecision::RouteLost);
    assert_eq!(m.on_check("Connected", hc(false, false, true), true), MonitorDecision::AutoReconnect);
    assert_eq!(m.on_check("Connected", hc(false, false, false), true), MonitorDecision::Unreachable);
}

fn ready_config() -> AppConfig {
    let mut cfg = AppConfig::default();
    cfg.setup_complete = true;
    cfg.vpn_gateway = Some("10.0.0.20".to_string());
    cfg.dns_server = Some("10.0.0.20".to_string());
    cfg.isp_gateway = Some("10.0.0.1".to_string());
    cfg.switcher_url = Some("http://10.0.0.20".to_string());
    cfg
}

#[test]
fn daemon_starts_disabled() {
    let d = Daemon::new(&AppConfig::default(), "eth0", 100);
    assert_eq!(d.vpn_state, VpnState::Disabled);
    assert_eq!(d.status.state, "SetupIncomplete");
    assert_eq!(d.status.location, "Unknown");
    assert_eq!(d.status.updated_unix, 100);
    let d = Daemon::new(&ready_config(), "eth0", 100);
    assert_eq!(d.status.state, "Disabled");
    assert_eq!(d.status.adapter, "eth0");
    assert_eq!(d.status.vpn_gateway.as_deref(), Some("10.0.0.20"));
}

#[test]
fn daemon_status_follows_events() {
    let mut d = Daemon::new(&ready_config(), "eth0", 0);
    d.set_enabling();
    assert_eq!(d.status.state, "Enabling");
    d.finish_attempt(true, &Some("UK - London".to_string()), None, 50);
    assert_eq!(d.vpn_state, VpnState::Connected);
    assert_eq!(d.status.state, "Connected");
    assert_eq!(d.status.location, "UK - London");
    assert_eq!(d.status.connected_since_unix, Some(50));

    assert_eq!(d.handle_event(HcEvent::Healthy, 60), Follow::Nothing);
    assert_eq!(d.handle_event(HcEvent::Dropped { kill_switched: true }, 70), Follow::Publish);
    assert_eq!(d.status.state, "Dropped");
    assert_eq!(d.status.message.as_deref(), Some("Kill switch activated - routing cleared."));
    assert_eq!(d.status.connected_since_unix, None);
    assert_eq!(d.handle_event(HcEvent::Dropped { kill_switched: false }, 75), Follow::Nothing);

    assert_eq!(d.handle_event(HcEvent::AutoReconnect, 80), Follow::Reconnect);
    assert_eq!(d.vpn_state, VpnState::Enabling);
    d.finish_auto_reconnect(false, &None, 90);
    assert_eq!(d.status.state, "Dropped");
    assert_eq!(d.status.message.as_deref(), Some("Auto-reconnect failed."));

    assert_eq!(d.handle_event(HcEvent::Recovered, 100), Follow::Publish);
    assert_eq!(d.status.state, "Connected");
    assert_eq!(d.connected_at, Some(100));

    assert_eq!(d.handle_event(HcEvent::Unreachable, 110), Follow::Publish);
    assert_eq!(d.status.state, "ServerUnreachable");
    assert_eq!(d.status.message.as_deref(), Some("VPN server unreachable."));

    assert_eq!(d.handle_event(HcEvent::LocationFetched("Japan - Tokyo".to_string()), 120), Follow::Publish);
    assert_eq!(d.status.location, "Japan - Tokyo");
}

#[test]
fn auto_reconnect_only_from_dropped_or_unreachable() {
    let mut d = Daemon::new(&ready_config(), "eth0", 0);
    assert_eq!(d.handle_event(HcEvent::AutoReconnect, 1), Follow::Nothing);
    assert_eq!(d.vpn_state, VpnState::Disabled);
}

#[test]
fn failed_attempt_reports_failure() {
    let mut d = Daemon::new(&ready_config(), "eth0", 0);
    d.set_enabling();
    d.finish_attempt(false, &None, None, 5);
    assert_eq!(d.vpn_state, VpnState::Disabled);
    assert_eq!(d.status.state, "Disabled");
    assert_eq!(d.status.message.as_deref(), Some("Failed to enable VPN."));
}

#[test]
fn config_reload_updates_status() {
    let mut d = Daemon::new(&AppConfig::default(), "eth0", 0);
    assert_eq!(d.status.state, "SetupIncomplete");
    let cfg = ready_config();
    assert!(d.on_config_reloaded(&cfg));
    assert_eq!(d.status.state, "Disabled");
    assert_eq!(d.status.vpn_gateway.as_deref(), Some("10.0.0.20"));
    let mut cfg2 = ready_config();
    cfg2.last_location = Some("UK - London".to_string());
    assert!(!d.on_config_reloaded(&cfg2));
    assert_eq!(d.status.location, "UK - London");
}

#[test]
fn connect_attempt_verifies_route_and_traffic() {
    let cfg = ready_config();
    let mut a = ConnectAttempt::start("eth0", &cfg, Platform::Unix);
    assert_eq!(a.stage, AttemptStage::Enable);
    let cmds = a.next_commands().expect("enable commands");
    assert!(!cmds.is_empty());
    let outputs: Vec<CommandOutput> = cmds.iter().map(|_| out("", 0)).collect();
    a.record(&outputs);
    assert_eq!(a.stage, AttemptStage::VerifyRoute);
    let cmds = a.next_commands().expect("route query");
    assert_eq!(cmds, vec!["ip route show default via 10.0.0.20 dev eth0".to_string()]);
    a.record(&vec![out("default via 10.0.0.20 dev eth0", 0)]);
    assert_eq!(a.stage, AttemptStage::VerifyTraffic);
    let cmds = a.next_commands().expect("trace");
    assert_eq!(cmds, vec!["traceroute -n -m 1 -w 1 8.8.8.8".to_string()]);
    a.record(&vec![out(" 1  10.0.0.20  1.234 ms", 0)]);
    assert_eq!(a.stage, AttemptStage::Done(true));
    assert!(a.next_commands().is_none());
}

#[test]
fn connect_attempt_fails_when_traffic_leaves_through_the_isp() {
    let cfg = ready_config();
    let mut a = ConnectAttempt::start("eth0", &cfg, Platform::Unix);
    let cmds = a.next_commands().unwrap();
    a.record(&cmds.iter().map(|_| out("", 0)).collect());
    a.next_commands();
    a.record(&vec![out("default via 10.0.0.20 dev eth0", 0)]);
    a.next_commands();
    a.record(&vec![out(" 1  10.0.0.1  0.5 ms", 0)]);
    assert_eq!(a.stage, AttemptStage::Done(false));
}

#[test]
fn connect_attempt_fails_without_the_route() {
    let cfg = ready_config();
    let mut a = ConnectAttempt::start("eth0", &cfg, Platform::Unix);
    let cmds = a.next_commands().unwrap();
    a.record(&cmds.iter().map(|_| out("", 0)).collect());
    a.next_commands();
    a.record(&vec![out("", 0)]);
    assert_eq!(a.stage, AttemptStage::Done(false));
}

#[test]
fn startup_and_toggle_actions() {
    let mut cfg = AppConfig::default();
    assert_eq!(startup_action(&cfg), StartupAction::OpenSetup);
    cfg.setup_complete = true;
    assert_eq!(startup_action(&cfg), StartupAction::EnsureDisabled);
    cfg.auto_connect = true;
    assert_eq!(startup_action(&cfg), StartupAction::AutoConnect);
    assert_eq!(toggle_action(VpnState::Connected), ToggleAction::Disable);
    assert_eq!(toggle_action(VpnState::Dropped), ToggleAction::Enable);
}

#[test]
fn tray_presentation() {
    assert_eq!(tray_label(VpnState::Connected, Some("UK - London")), "Connected - UK - London");
    assert_eq!(tray_label(VpnState::Connected, None), "Connected - Unknown");
    assert_eq!(tray_label(VpnState::Disabled, None), "Disconnected");
    assert_eq!(tray_label(VpnState::Dropped, None), "Connection Dropped");
    assert_eq!(tray_color(VpnState::Connected), VpnState::Connected.color());
    let m = menu_state(false, VpnState::Connected, true);
    assert!(m.general_enabled && m.toggle_enabled && m.location_enabled);
    assert_eq!(m.toggle_text, "Disable VPN");
    let m = menu_state(false, VpnState::Enabling, true);
    assert!(!m.toggle_enabled);
    assert_eq!(m.toggle_text, "Enable VPN");
    let m = menu_state(true, VpnState::Disabled, true);
    assert!(!m.general_enabled && !m.toggle_enabled && !m.location_enabled);
}

#[test]
fn connect_attempt_runs_the_enable_plan_with_gateway_and_dns() {
    let mut cfg = ready_config();
    cfg.dns_server = Some("10.0.0.53".to_string());
    let a = ConnectAttempt::start("eth0", &cfg, Platform::Unix);
    let expected = dragonfox_vpn::vpn_runtime::enable_vpn("eth0", "10.0.0.20", "10.0.0.53", Platform::Unix);
    assert_eq!(a.next_commands().unwrap(), expected.commands);
    assert_eq!(a.plan.decisive, expected.decisive);
    assert!(a.plan.commands.contains(&"sudo resolvectl dns eth0 10.0.0.53".to_string()));
    assert!(a
        .plan
        .commands
        .contains(&"sudo ip route add default via 10.0.0.20 dev eth0 metric 50".to_string()));
}

#[test]
fn notifications_for_drops_and_unreachable_server() {
    assert_eq!(
        event_notice(&HcEvent::Dropped { kill_switched: true }, VpnState::Connected),
        Some(("Kill switch activated".to_string(), "VPN dropped - routing cleared.".to_string()))
    );
    assert_eq!(
        event_notice(&HcEvent::Dropped { kill_switched: false }, VpnState::Connected),
        Some(("VPN dropped".to_string(), "The VPN route was lost unexpectedly.".to_string()))
    );
    assert_eq!(
        event_notice(&HcEvent::Unreachable, VpnState::Connected),
        Some(("VPN server unreachable".to_string(), "The VPN server does not answer.".to_string()))
    );
    assert_eq!(event_notice(&HcEvent::Dropped { kill_switched: true }, VpnState::Dropped), None);
    assert_eq!(event_notice(&HcEvent::Unreachable, VpnState::ServerUnreachable), None);
    assert_eq!(event_notice(&HcEvent::Healthy, VpnState::Connected), None);
    assert_eq!(event_notice(&HcEvent::Recovered, VpnState::Dropped), None);
}
