use dragonfox_vpn::locale::{chosen_language, is_supported_language};
use dragonfox_vpn::locale::{language_for_locale, needs_cjk_font, t, t_fmt, Translations};

#[test]
fn translation_falls_back_to_english_on_concrete_tables() {
    let en = r#"{"a": "English A", "b": "English B"}"#;
    let de = r#"{"a": "Deutsch A"}"#;
    let table = Translations::new(en, "de", de);
    assert_eq!(t(&table, "a"), "Deutsch A");
    assert_eq!(t(&table, "b"), "English B");
    assert_eq!(t(&table, "c"), "c");
    let english = Translations::new(en, "en", de);
    assert_eq!(t(&english, "a"), "English A");
}

#[test]
fn unreadable_tables_give_keys_back() {
    let table = Translations::new("not json", "fr", "[1, 2]");
    assert_eq!(t(&table, "menu.exit"), "menu.exit");
    let table = Translations::new(r#"{"x": "X"}"#, "fr", "not json");
    assert_eq!(t(&table, "x"), "X");
}

#[test]
fn placeholders_are_filled_in_order() {
    let table = Translations::new(r#"{"m": "{a} and {b} and {a}"}"#, "en", "");
    assert_eq!(t_fmt(&table, "m", &[("a", "1"), ("b", "2")]), "1 and 2 and 1");
    assert_eq!(t_fmt(&table, "m", &[]), "{a} and {b} and {a}");
    assert_eq!(t_fmt(&table, "missing {x}", &[("x", "y")]), "missing y");
}

#[test]
fn language_from_locale() {
    assert_eq!(language_for_locale("de_DE.UTF-8"), "de");
    assert_eq!(language_for_locale("zh-CN"), "zh_CN");
    assert_eq!(language_for_locale("PT_br"), "pt_BR");
    assert_eq!(language_for_locale("ja_JP"), "ja");
    assert_eq!(language_for_locale("C"), "en");
    assert_eq!(language_for_locale(""), "en");
    assert!(needs_cjk_font("ko"));
    assert!(!needs_cjk_font("de"));
}

#[test]
fn configured_language_is_chosen_when_supported() {
    assert_eq!(chosen_language(&Some("fr".to_string()), "de_DE.UTF-8"), "fr");
    assert_eq!(chosen_language(&Some("xx".to_string()), "de_DE.UTF-8"), "de");
    assert_eq!(chosen_language(&None, "ja_JP"), "ja");
    assert_eq!(chosen_language(&None, ""), "en");
    assert!(is_supported_language("pt_BR"));
    assert!(!is_supported_language("pt"));
}
