use dragonfox_vpn::system::{CommandOutput, Platform};
use dragonfox_vpn::vpn_runtime;

#[test]
fn test_enable_vpn_rejects_empty_gateway_or_dns() {
    for (gw, dns) in [("", "1.1.1.1"), ("10.0.0.1", ""), ("", "")] {
        let plan = vpn_runtime::enable_vpn("eth0", gw, dns, Platform::Unix);
        assert!(plan.commands.is_empty());
        assert!(!plan.succeeded(&Vec::new()));
    }
}

#[test]
fn test_disable_vpn_noop_on_empty_gateway() {
    assert!(vpn_runtime::disable_vpn("eth0", "", Platform::Unix).is_empty());
}

#[test]
fn test_check_health_empty_inputs_are_all_false() {
    let mut probe = vpn_runtime::check_health("eth0", "", "", Platform::Unix);
    while let Some(_cmd) = probe.next_command() {
        probe.record_output(&CommandOutput { stdout: String::new(), stderr: String::new(), code: 0 });
    }
    let health = probe.result();
    assert!(!health.route_exists);
    assert!(!health.vpn_active);
    assert!(!health.pi_reachable);
}
