use health_relay::link::{external_url, starts_with};

#[test]
fn link_with_a_scheme_is_kept() {
    assert_eq!(external_url("https://example.com/a".to_string()), "https://example.com/a");
    assert_eq!(external_url("http://example.com".to_string()), "http://example.com");
    assert_eq!(external_url("https://".to_string()), "https://");
    assert_eq!(external_url("http://".to_string()), "http://");
}

#[test]
fn link_without_a_scheme_becomes_https() {
    assert_eq!(external_url("example.com".to_string()), "https://example.com");
    assert_eq!(external_url("".to_string()), "https://");
    assert_eq!(external_url("http:/example.com".to_string()), "https://http:/example.com");
    assert_eq!(external_url("ftp://example.com".to_string()), "https://ftp://example.com");
    assert_eq!(external_url("HTTP://example.com".to_string()), "https://HTTP://example.com");
    assert_eq!(external_url(" https://example.com".to_string()), "https:// https://example.com");
}

#[test]
fn link_outside_ascii_is_handled_by_character() {
    assert_eq!(external_url("例子.测试/路径".to_string()), "https://例子.测试/路径");
    assert_eq!(external_url("https://例子.测试".to_string()), "https://例子.测试");
}

#[test]
fn prefix_is_found_only_at_the_start() {
    assert!(starts_with("https://x", "https://"));
    assert!(starts_with("abc", ""));
    assert!(starts_with("", ""));
    assert!(starts_with("abc", "abc"));
    assert!(!starts_with("ab", "abc"));
    assert!(!starts_with("", "a"));
    assert!(!starts_with("xhttps://", "https://"));
    assert!(starts_with("超时: x", "超时"));
    assert!(!starts_with("超时", "超市"));
}
