use dragonfox_vpn::config::AppConfig;

// ---------------------------------------------------------------------------
// Default values
// ---------------------------------------------------------------------------

#[test]
fn test_default_has_no_favorites() {
    let cfg = AppConfig::default();
    assert!(cfg.favorites.is_empty());
}

#[test]
fn test_default_auto_connect_is_false() {
    assert!(!AppConfig::default().auto_connect);
}

#[test]
fn test_default_setup_not_complete() {
    assert!(!AppConfig::default().setup_complete);
}

#[test]
fn test_default_optional_fields_are_none() {
    let cfg = AppConfig::default();
    assert!(cfg.last_location.is_none());
    assert!(cfg.vpn_gateway.is_none());
    assert!(cfg.isp_gateway.is_none());
    assert!(cfg.dns_server.is_none());
    assert!(cfg.switcher_url.is_none());
}

// ---------------------------------------------------------------------------
// Favorites
// ---------------------------------------------------------------------------

#[test]
fn test_is_favorite_false_initially() {
    let cfg = AppConfig::default();
    assert!(!cfg.is_favorite("UK - London"));
}

#[test]
fn test_is_favorite_true_after_adding() {
    let mut cfg = AppConfig::default();
    cfg.favorites.push("UK - London".to_string());
    assert!(cfg.is_favorite("UK - London"));
}

#[test]
fn test_is_favorite_case_sensitive() {
    let mut cfg = AppConfig::default();
    cfg.favorites.push("UK - London".to_string());
    assert!(!cfg.is_favorite("uk - london"));
}

#[test]
fn test_toggle_favorite_adds_when_absent() {
    let mut cfg = AppConfig::default();
    let label = "Germany - Frankfurt";
    assert!(!cfg.favorites.contains(&label.to_string()));
    cfg.favorites.push(label.to_string());
    assert!(cfg.favorites.contains(&label.to_string()));
}

#[test]
fn test_toggle_favorite_removes_when_present() {
    let mut cfg = AppConfig::default();
    cfg.favorites.push("Germany - Frankfurt".to_string());
    let pos = cfg
        .favorites
        .iter()
        .position(|f| f == "Germany - Frankfurt");
    assert!(pos.is_some());
    cfg.favorites.remove(pos.unwrap());
    assert!(!cfg.favorites.contains(&"Germany - Frankfurt".to_string()));
}

#[test]
fn test_favorites_preserves_order() {
    let mut cfg = AppConfig::default();
    cfg.favorites = vec![
        "UK - London".to_string(),
        "Germany - Frankfurt".to_string(),
        "Japan - Tokyo".to_string(),
    ];
    assert_eq!(cfg.favorites[0], "UK - London");
    assert_eq!(cfg.favorites[1], "Germany - Frankfurt");
    assert_eq!(cfg.favorites[2], "Japan - Tokyo");
}

// ---------------------------------------------------------------------------
// toggle_favorite itself
// ---------------------------------------------------------------------------

#[test]
fn toggle_favorite_adds_then_removes() {
    let mut cfg = AppConfig::default();
    cfg.favorites.push("UK - London".to_string());
    cfg.toggle_favorite("Germany - Frankfurt");
    assert_eq!(cfg.favorites, vec!["UK - London".to_string(), "Germany - Frankfurt".to_string()]);
    assert!(cfg.is_favorite("Germany - Frankfurt"));
    cfg.toggle_favorite("UK - London");
    assert_eq!(cfg.favorites, vec!["Germany - Frankfurt".to_string()]);
    assert!(!cfg.is_favorite("UK - London"));
}

#[test]
fn toggle_favorite_twice_restores_the_list() {
    let mut cfg = AppConfig::default();
    cfg.favorites = vec!["A".to_string(), "B".to_string()];
    cfg.toggle_favorite("C");
    cfg.toggle_favorite("C");
    assert_eq!(cfg.favorites, vec!["A".to_string(), "B".to_string()]);
}

#[test]
fn toggle_favorite_leaves_other_settings() {
    let mut cfg = AppConfig::default();
    cfg.auto_connect = true;
    cfg.last_location = Some("UK - London".to_string());
    cfg.toggle_favorite("UK - London");
    assert!(cfg.auto_connect);
    assert_eq!(cfg.last_location.as_deref(), Some("UK - London"));
}
