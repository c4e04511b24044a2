use price_api::origins::{parse_allowed_origins, parse_origin_list, trim};

#[test]
fn origin_list_skips_blank_and_invalid_entries() {
    let r = parse_origin_list("http://a.com, ,bad header\nvalue,http://b.com");
    assert_eq!(r.allowed, vec!["http://a.com".to_string(), "http://b.com".to_string()]);
    assert_eq!(r.rejected, vec!["bad header\nvalue".to_string()]);
}

#[test]
fn default_origins_when_unconfigured() {
    let r = parse_allowed_origins(None);
    assert_eq!(
        r.allowed,
        vec![
            "http://localhost:3000".to_string(),
            "http://127.0.0.1:3000".to_string(),
            "https://dca.btc.sv".to_string(),
        ]
    );
    assert!(r.rejected.is_empty());
}

#[test]
fn configured_origins_replace_default() {
    let r = parse_allowed_origins(Some("  https://x.org  "));
    assert_eq!(r.allowed, vec!["https://x.org".to_string()]);
}

#[test]
fn empty_configuration_gives_empty_policy() {
    let r = parse_allowed_origins(Some(""));
    assert!(r.allowed.is_empty());
    assert!(r.rejected.is_empty());
    let r = parse_origin_list(" , ,,\t");
    assert!(r.allowed.is_empty());
    assert!(r.rejected.is_empty());
}

#[test]
fn control_characters_are_rejected_tab_inside_is_kept() {
    let r = parse_origin_list("a\u{7f}b,c\td,e\u{1}f");
    assert_eq!(r.allowed, vec!["c\td".to_string()]);
    assert_eq!(r.rejected, vec!["a\u{7f}b".to_string(), "e\u{1}f".to_string()]);
}

#[test]
fn non_ascii_origin_is_a_valid_header_value() {
    let r = parse_origin_list("https://bücher.de");
    assert_eq!(r.allowed, vec!["https://bücher.de".to_string()]);
}

#[test]
fn trim_strips_unicode_white_space() {
    assert_eq!(trim("  x y\t\n"), "x y");
    assert_eq!(trim("\u{3000}\u{a0}z\u{2028}"), "z");
    assert_eq!(trim("   "), "");
    assert_eq!(trim(""), "");
    assert_eq!(trim("q"), "q");
}
