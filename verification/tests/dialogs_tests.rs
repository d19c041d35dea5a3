use dragonfox_vpn::dialogs::should_resolve_host;
use dragonfox_vpn::config::AppConfig;
use dragonfox_vpn::dialogs::{
    moves_focus, sanitize_octet, apply_settings, cjk_font_candidates, format_duration, host_of_url, is_web_url,
    language_changed, lock_owner, normalized_url, ping_check_line, pingable, save_decision,
    simplify_network_error, state_message_key, url_check_line, IpInput, PingTarget, SaveDecision,
};
use dragonfox_vpn::locale::Translations;
use dragonfox_vpn::system::Platform;

#[test]
fn ip_input_splits_and_joins() {
    let ip = IpInput::from_str("192.168.1.20");
    assert_eq!(ip.octets[0], "192");
    assert_eq!(ip.octets[3], "20");
    assert_eq!(ip.to_ip_string(), "192.168.1.20");
    assert!(ip.is_valid());
    let short = IpInput::from_str("10.0");
    assert_eq!(short.octets[2], "");
    assert_eq!(short.to_ip_string(), "10.0..");
    assert!(!short.is_valid());
    let long = IpInput::from_str("1.2.3.4.5");
    assert_eq!(long.octets[3], "4.5");
    assert!(!long.is_valid());
}

#[test]
fn ip_input_rejects_out_of_range_octets() {
    assert!(!IpInput::from_str("256.1.1.1").is_valid());
    assert!(!IpInput::from_str("1.1.1.x").is_valid());
    assert!(IpInput::from_str("0.0.0.255").is_valid());
    assert!(IpInput::from_str("010.0.0.1").is_valid());
}

#[test]
fn network_errors_are_simplified() {
    assert_eq!(simplify_network_error("Operation TIMED OUT"), "connection timed out");
    assert_eq!(simplify_network_error("os error 10061"), "connection refused");
    assert_eq!(simplify_network_error("failed to resolve host"), "hostname could not be resolved");
    assert_eq!(simplify_network_error("invalid peer certificate"), "SSL/TLS certificate error");
    assert_eq!(simplify_network_error("Network is unreachable"), "network unreachable");
    assert_eq!(simplify_network_error("something else"), "could not connect");
}

#[test]
fn settings_url_checks() {
    assert_eq!(normalized_url("  http://10.0.0.20//  "), "http://10.0.0.20");
    assert!(is_web_url("https://vpn.example.com"));
    assert!(!is_web_url("ftp://vpn.example.com"));
    assert_eq!(host_of_url("http://10.0.0.20:8080/switch").as_deref(), Some("10.0.0.20"));
    assert_eq!(host_of_url("https://vpn.example.com").as_deref(), Some("vpn.example.com"));
    assert_eq!(host_of_url("vpn.example.com"), None);
}

#[test]
fn save_decisions() {
    assert!(matches!(
        save_decision("http://10.0.0.20", true, false),
        SaveDecision::Save { restart: false }
    ));
    assert!(matches!(
        save_decision("http://10.0.0.20", true, true),
        SaveDecision::Save { restart: true }
    ));
    assert!(matches!(save_decision("", true, true), SaveDecision::LanguageOnly));
    assert!(matches!(
        save_decision("http://10.0.0.20", false, false),
        SaveDecision::Refuse("settings.msg_invalid_ip")
    ));
    assert!(matches!(
        save_decision("10.0.0.20", true, false),
        SaveDecision::Refuse("settings.msg_invalid_url")
    ));
    assert!(language_changed(&None, "en"));
    assert!(!language_changed(&Some("de".to_string()), "de"));
    assert!(language_changed(&Some("de".to_string()), "fr"));
}

#[test]
fn saved_settings_use_the_vpn_server_as_dns() {
    let mut cfg = AppConfig::default();
    cfg.favorites.push("UK - London".to_string());
    apply_settings(&mut cfg, "10.0.0.20", "10.0.0.1", "http://10.0.0.20", true, false, "de");
    assert_eq!(cfg.vpn_gateway.as_deref(), Some("10.0.0.20"));
    assert_eq!(cfg.dns_server.as_deref(), Some("10.0.0.20"));
    assert_eq!(cfg.isp_gateway.as_deref(), Some("10.0.0.1"));
    assert!(cfg.setup_complete);
    assert!(cfg.auto_connect && !cfg.auto_reconnect);
    assert_eq!(cfg.language.as_deref(), Some("de"));
    assert_eq!(cfg.favorites.len(), 1);
}

fn table() -> Translations {
    Translations::new(
        r#"{"test.url_ok": "Switcher OK ({count} locations)", "test.url_not_set": "URL not set",
            "test.url_wrong_page": "Wrong page", "test.url_error": "Switcher: {msg}",
            "test.vpn_server": "VPN server {ip}: {status}", "test.router": "Router {ip}: {status}",
            "test.vpn_server_not_set": "VPN server not set", "test.reachable": "reachable",
            "test.unreachable": "unreachable"}"#,
        "en",
        "",
    )
}

#[test]
fn connection_test_lines() {
    let t = table();
    assert_eq!(url_check_line(&t, &Some(Ok(12))), ("Switcher OK (12 locations)".to_string(), true));
    assert_eq!(url_check_line(&t, &Some(Ok(0))), ("Wrong page".to_string(), false));
    assert_eq!(url_check_line(&t, &None), ("URL not set".to_string(), false));
    assert_eq!(
        url_check_line(&t, &Some(Err("Connection refused".to_string()))),
        ("Switcher: connection refused".to_string(), false)
    );
    assert_eq!(
        ping_check_line(&t, PingTarget::VpnServer, "10.0.0.20", Some(true)),
        ("VPN server 10.0.0.20: reachable".to_string(), true)
    );
    assert_eq!(
        ping_check_line(&t, PingTarget::Router, "10.0.0.1", Some(false)),
        ("Router 10.0.0.1: unreachable".to_string(), false)
    );
    assert_eq!(
        ping_check_line(&t, PingTarget::VpnServer, "", None),
        ("VPN server not set".to_string(), false)
    );
    // A key missing from the table is shown as is.
    assert_eq!(
        ping_check_line(&t, PingTarget::Router, "", None),
        ("test.router_not_set".to_string(), false)
    );
    assert!(pingable("10.0.0.1"));
    assert!(!pingable("10.0.0"));
    assert!(!pingable(".10.0.0"));
}

#[test]
fn status_window_texts() {
    assert_eq!(state_message_key("Connected"), "status_win.state_connected");
    assert_eq!(state_message_key("Enabling"), "status_win.state_connecting");
    assert_eq!(state_message_key("SetupIncomplete"), "status_win.state_setup_incomplete");
    assert_eq!(state_message_key("anything"), "status_win.state_disabled");
    assert_eq!(format_duration(None, 100), "--:--:--");
    assert_eq!(format_duration(Some(100), 100 + 3 * 3600 + 5 * 60 + 9), "03:05:09");
    assert_eq!(format_duration(Some(0), 100 * 3600), "100:00:00");
    assert_eq!(format_duration(Some(200), 100), "00:00:00");
}

#[test]
fn lock_file_contents() {
    assert_eq!(lock_owner(" 4242\n"), Some(4242));
    assert_eq!(lock_owner("garbage"), None);
    assert_eq!(lock_owner(""), None);
    assert_eq!(lock_owner("99999999999"), None);
}

#[test]
fn cjk_fonts_by_language() {
    assert_eq!(
        cjk_font_candidates("ko", Platform::Windows),
        vec!["malgun.ttf", "gulim.ttc"]
    );
    assert_eq!(cjk_font_candidates("ja", Platform::Unix).len(), 4);
    assert_eq!(
        cjk_font_candidates("zh_CN", Platform::Unix)[4],
        "/usr/share/fonts/google-noto-cjk/NotoSansCJK-Regular.ttc"
    );
    assert!(cjk_font_candidates("de", Platform::Unix).is_empty());
}

#[test]
fn dialog_states_start_empty() {
    let s = dragonfox_vpn::dialogs::SetupDialogState::default();
    assert!(s.vpn_gateway.is_empty() && s.switcher_url.is_empty());
    assert!(s.error_msg.is_none() && !s.submitted && !s.cancelled);
    let l = dragonfox_vpn::dialogs::LocationDialogState::default();
    assert!(l.locations.is_empty() && l.selected_value.is_none());
    assert!(!l.is_loading && !l.is_switching && l.accepted.is_none());
}

#[test]
fn octet_fields_keep_three_digits() {
    assert_eq!(sanitize_octet("1a2.3"), "123");
    assert_eq!(sanitize_octet("12345"), "123");
    assert_eq!(sanitize_octet("x"), "");
    assert!(moves_focus(0, 2, "192", false));
    assert!(!moves_focus(0, 3, "192", false));
    assert!(moves_focus(1, 1, "1.", true));
    assert!(!moves_focus(1, 1, "1.", false));
    assert!(!moves_focus(3, 2, "255", true));
}

#[test]
fn host_lookup_starts_only_for_a_new_web_url() {
    assert!(should_resolve_host("http://vpn.local", "", false));
    assert!(!should_resolve_host("http://vpn.local", "http://vpn.local", false));
    assert!(!should_resolve_host("http://vpn.local", "", true));
    assert!(!should_resolve_host("vpn.local", "", false));
}

#[test]
fn connection_report_has_three_lines_in_order() {
    let t = table();
    let r = dragonfox_vpn::dialogs::connection_report(
        &t,
        &Some(Ok(3)),
        "10.0.0.20",
        Some(true),
        "",
        None,
    );
    assert_eq!(
        r,
        vec![
            ("Switcher OK (3 locations)".to_string(), true),
            ("VPN server 10.0.0.20: reachable".to_string(), true),
            ("test.router_not_set".to_string(), false),
        ]
    );
}
