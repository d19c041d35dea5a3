use dragonfox_vpn::api::Location;
use dragonfox_vpn::config::AppConfig;
use dragonfox_vpn::locale::Translations;
use dragonfox_vpn::location_list::{
    listing_order, location_rows, str_less, LocationPicker, SwitchFollowUp,
};

fn loc(continent: &str, label: &str, value: &str, country: &str) -> Location {
    Location {
        continent: continent.to_string(),
        value: value.to_string(),
        label: label.to_string(),
        country: country.to_string(),
    }
}

fn sample() -> Vec<Location> {
    vec![
        loc("Europe", "UK - London", "uk-london", "uk"),
        loc("Asia", "Japan - Tokyo", "jp-tokyo", "japan"),
        loc("Europe", "Germany - Frankfurt", "de-frankfurt", "germany"),
        loc("Asia", "Singapore", "sg", "singapore"),
        loc("Europe", "Atlantis", "atl", "atlantis"),
    ]
}

#[test]
fn str_less_follows_rust_string_order() {
    assert!(str_less("Asia", "Europe"));
    assert!(!str_less("Europe", "Asia"));
    assert!(str_less("UK", "UK - London"));
    assert!(!str_less("same", "same"));
    assert!(str_less("Z", "a"));
    assert!(str_less("é", "😀"));
}

#[test]
fn listing_order_sorts_by_continent_then_label() {
    let locs = sample();
    let cfg = AppConfig::default();
    let order = listing_order(&locs, &cfg);
    let labels: Vec<&str> = order.iter().map(|&i| locs[i].label.as_str()).collect();
    assert_eq!(
        labels,
        vec!["Japan - Tokyo", "Singapore", "Atlantis", "Germany - Frankfurt", "UK - London"]
    );
}

#[test]
fn listing_order_puts_favourites_first() {
    let locs = sample();
    let mut cfg = AppConfig::default();
    cfg.favorites = vec!["UK - London".to_string(), "Singapore".to_string()];
    let order = listing_order(&locs, &cfg);
    let labels: Vec<&str> = order.iter().map(|&i| locs[i].label.as_str()).collect();
    assert_eq!(
        labels,
        vec!["Singapore", "UK - London", "Japan - Tokyo", "Atlantis", "Germany - Frankfurt"]
    );
}

#[test]
fn listing_order_keeps_equal_keys_in_place() {
    let locs = vec![
        loc("Europe", "Same", "second", "x"),
        loc("Asia", "Other", "o", "x"),
        loc("Europe", "Same", "first", "x"),
    ];
    let order = listing_order(&locs, &AppConfig::default());
    assert_eq!(order, vec![1, 0, 2]);
}

#[test]
fn rows_have_headings_marks_and_flags() {
    let locs = sample();
    let mut cfg = AppConfig::default();
    cfg.favorites = vec!["UK - London".to_string()];
    let selected = Some("jp-tokyo".to_string());
    let rows = location_rows(&locs, &cfg, "", &selected, "Favorites");
    assert_eq!(rows.len(), 5);
    assert_eq!(rows[0].heading.as_deref(), Some("Favorites"));
    assert_eq!(rows[0].display_label, "* UK - London");
    assert!(rows[0].favorite);
    assert_eq!(rows[0].iso.as_deref(), Some("gb"));
    assert_eq!(rows[1].heading.as_deref(), Some("Asia"));
    assert_eq!(rows[1].display_label, "Japan - Tokyo");
    assert!(rows[1].selected);
    assert_eq!(rows[1].iso.as_deref(), Some("jp"));
    assert_eq!(rows[2].heading, None);
    assert_eq!(rows[2].label, "Singapore");
    assert!(!rows[2].selected);
    assert_eq!(rows[3].heading.as_deref(), Some("Europe"));
    assert_eq!(rows[3].label, "Atlantis");
    assert_eq!(rows[3].iso, None);
    assert_eq!(rows[4].heading, None);
    assert_eq!(rows[4].value, "de-frankfurt");
}

#[test]
fn rows_filter_by_lowercased_search() {
    let locs = sample();
    let cfg = AppConfig::default();
    let rows = location_rows(&locs, &cfg, "LON", &None, "Favorites");
    assert_eq!(rows.len(), 1);
    assert_eq!(rows[0].label, "UK - London");
    assert_eq!(rows[0].heading.as_deref(), Some("Europe"));
    let rows = location_rows(&locs, &cfg, "a", &None, "Favorites");
    let labels: Vec<&str> = rows.iter().map(|r| r.label.as_str()).collect();
    assert_eq!(labels, vec!["Japan - Tokyo", "Singapore", "Atlantis", "Germany - Frankfurt"]);
    assert!(location_rows(&locs, &cfg, "zzz", &None, "Favorites").is_empty());
}

fn table() -> Translations {
    Translations::new(
        r#"{"location_win.switch_failed": "Backend is on {location}", "location_win.switch_error": "Switch failed: {msg}"}"#,
        "en",
        "",
    )
}

#[test]
fn picker_selects_the_current_location() {
    let mut p = LocationPicker::new(AppConfig::default());
    assert!(p.is_loading);
    p.on_locations_fetched(sample(), Some("Singapore".to_string()));
    assert!(!p.is_loading);
    assert_eq!(p.locations.len(), 5);
    assert_eq!(p.selected_value.as_deref(), Some("sg"));
    assert_eq!(p.selected_label.as_deref(), Some("Singapore"));
    let mut q = LocationPicker::new(AppConfig::default());
    q.on_locations_fetched(sample(), Some("Nowhere".to_string()));
    assert!(q.selected_value.is_none());
}

#[test]
fn picker_click_starts_a_switch() {
    let mut cfg = AppConfig::default();
    cfg.switcher_url = Some("http://10.0.0.20".to_string());
    let mut p = LocationPicker::new(cfg);
    p.on_locations_fetched(sample(), Some("Singapore".to_string()));
    assert!(p.on_click("sg", "Singapore").is_none());
    let req = p.on_click("jp-tokyo", "Japan - Tokyo").expect("a switch");
    assert_eq!(req.url, "http://10.0.0.20");
    assert_eq!(req.value, "jp-tokyo");
    assert!(p.is_switching);
    assert_eq!(p.selected_label.as_deref(), Some("Japan - Tokyo"));
    // While switching, clicks do nothing.
    assert!(p.on_click("uk-london", "UK - London").is_none());
    assert_eq!(p.selected_value.as_deref(), Some("jp-tokyo"));
}

#[test]
fn picker_click_without_switcher_only_selects() {
    let mut p = LocationPicker::new(AppConfig::default());
    p.on_locations_fetched(sample(), None);
    assert!(p.on_click("sg", "Singapore").is_none());
    assert_eq!(p.selected_value.as_deref(), Some("sg"));
    assert!(!p.is_switching);
}

#[test]
fn picker_switch_confirmed_ignoring_case() {
    let mut cfg = AppConfig::default();
    cfg.switcher_url = Some("http://10.0.0.20".to_string());
    let mut p = LocationPicker::new(cfg);
    p.on_locations_fetched(sample(), None);
    p.on_click("jp-tokyo", "Japan - Tokyo");
    let f = p.on_switch_done(&table(), &Ok("JAPAN - tokyo".to_string()), Some("Connected"));
    assert_eq!(
        f,
        SwitchFollowUp { save_config: true, reload_config: true, reconnect: true, close: true }
    );
    assert!(p.switch_ok);
    assert!(!p.is_switching);
    assert_eq!(p.cfg.last_location.as_deref(), Some("JAPAN - tokyo"));
}

#[test]
fn picker_switch_to_another_location_is_reported() {
    let mut cfg = AppConfig::default();
    cfg.switcher_url = Some("http://10.0.0.20".to_string());
    let mut p = LocationPicker::new(cfg);
    p.on_locations_fetched(sample(), None);
    p.on_click("jp-tokyo", "Japan - Tokyo");
    let f = p.on_switch_done(&table(), &Ok("Singapore".to_string()), Some("Disabled"));
    assert_eq!(
        f,
        SwitchFollowUp { save_config: true, reload_config: true, reconnect: false, close: false }
    );
    assert!(!p.switch_ok);
    assert_eq!(p.switch_status.as_deref(), Some("Backend is on Singapore"));
    assert_eq!(p.cfg.last_location.as_deref(), Some("Singapore"));
}

#[test]
fn picker_switch_error_is_reported() {
    let mut p = LocationPicker::new(AppConfig::default());
    let f = p.on_switch_done(&table(), &Err("timeout".to_string()), None);
    assert_eq!(
        f,
        SwitchFollowUp { save_config: false, reload_config: false, reconnect: false, close: false }
    );
    assert_eq!(p.switch_status.as_deref(), Some("Switch failed: timeout"));
    assert!(p.cfg.last_location.is_none());
}

#[test]
fn picker_right_click_toggles_favourite() {
    let mut p = LocationPicker::new(AppConfig::default());
    p.on_right_click("Singapore");
    assert!(p.cfg.is_favorite("Singapore"));
    p.on_right_click("Singapore");
    assert!(!p.cfg.is_favorite("Singapore"));
}

#[test]
fn picker_rows_use_its_search_text() {
    let mut p = LocationPicker::new(AppConfig::default());
    p.on_locations_fetched(sample(), Some("UK - London".to_string()));
    p.search_text = "tokyo".to_string();
    let rows = p.rows("Favorites");
    assert_eq!(rows.len(), 1);
    assert_eq!(rows[0].value, "jp-tokyo");
    assert!(!rows[0].selected);
}

#[test]
fn search_lowercases_beyond_ascii() {
    let locs = vec![
        loc("Europe", "École - Paris", "fr-paris", "france"),
        loc("Europe", "UK - London", "uk-london", "uk"),
    ];
    let rows = location_rows(&locs, &AppConfig::default(), "ÉCOLE", &None, "Favorites");
    assert_eq!(rows.len(), 1);
    assert_eq!(rows[0].value, "fr-paris");
    assert_eq!(rows[0].iso.as_deref(), Some("fr"));
}
