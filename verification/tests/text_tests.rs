use dragonfox_vpn::text::eq_ignore_ascii_case;

#[test]
fn ascii_case_insensitive_equality() {
    assert!(eq_ignore_ascii_case("Japan - Tokyo", "JAPAN - tokyo"));
    assert!(!eq_ignore_ascii_case("Japan", "Japan - Tokyo"));
    assert!(!eq_ignore_ascii_case("É", "é"));
    assert!(eq_ignore_ascii_case("", ""));
}
