use dragonfox_vpn::api::{php_error_from_elements, ScrapedElement};
use dragonfox_vpn::api::{
    switch_outcome, switch_transport_error, too_many_redirects, SwitchSession, SwitchVerdict,
    MAX_SWITCH_POSTS,
};

#[test]
fn switch_session_follows_redirects() {
    let mut s = SwitchSession::start("http://10.0.0.20");
    assert_eq!(s.next_post().as_deref(), Some("http://10.0.0.20/"));
    assert!(matches!(s.on_status(302, Some("/switch")), SwitchVerdict::Redirected));
    assert_eq!(s.next_post().as_deref(), Some("http://10.0.0.20/switch"));
    assert!(matches!(s.on_status(200, None), SwitchVerdict::ReadBody));
    assert_eq!(s.posts, 2);
}

#[test]
fn switch_redirect_without_location_fails() {
    let mut s = SwitchSession::start("http://10.0.0.20/");
    s.next_post();
    match s.on_status(307, None) {
        SwitchVerdict::Failed(m) => assert_eq!(m, "Redirect 307 with no Location header"),
        _ => panic!("expected a failure"),
    }
}

#[test]
fn switch_post_budget_is_limited() {
    let mut s = SwitchSession::start("http://10.0.0.20/");
    for _ in 0..MAX_SWITCH_POSTS {
        assert!(s.next_post().is_some());
        s.on_status(301, Some("http://10.0.0.20/again"));
    }
    assert!(s.next_post().is_none());
    assert_eq!(too_many_redirects(), "Too many redirects following switch POST");
}

#[test]
fn switch_outcomes() {
    let ok = r#"<html><body><div class="dropdown-content"><div class="optgroup-label">Europe</div><div class="dropdown-item active" data-value="uk">UK - London</div></div></body></html>"#;
    assert_eq!(switch_outcome(ok), Ok("UK - London".to_string()));
    let err = "<p class='error'><strong>Invalid location value</strong></p>";
    assert_eq!(switch_outcome(err), Err("Invalid location value".to_string()));
    let bare_err = "<p class=\"error\"></p>";
    assert_eq!(
        switch_outcome(bare_err),
        Err("Backend reported an error during location switch".to_string())
    );
    assert_eq!(
        switch_outcome("<html></html>"),
        Err("Switch did not appear to take effect (no active location in response)".to_string())
    );
    assert_eq!(switch_transport_error("timeout"), "Failed to switch location: timeout");
}

#[test]
fn error_message_from_scraped_elements() {
    let el = |t: &str| ScrapedElement { attrs: Vec::new(), text: t.to_string() };
    assert_eq!(php_error_from_elements(&vec![el("  Bad  "), el("x")]), Some("Bad".to_string()));
    assert_eq!(php_error_from_elements(&vec![el("   ")]), None);
    assert_eq!(php_error_from_elements(&Vec::new()), None);
}
