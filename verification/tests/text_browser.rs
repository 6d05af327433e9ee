use limux_host_linux::browser::{initial_load_uri, normalize_url_input, UriTracker};
use limux_host_linux::text::{
    appended_env_value, str_equal, shell_or_default, terminal_title_display, trims_to_empty,
};

#[test]
fn urls_are_completed_or_searched() {
    assert_eq!(normalize_url_input("http://a.b"), "http://a.b");
    assert_eq!(normalize_url_input("https://a.b/c d"), "https://a.b/c d");
    assert_eq!(normalize_url_input("example.org"), "https://example.org");
    assert_eq!(
        normalize_url_input("rust verus"),
        "https://www.google.com/search?q=rust+verus"
    );
    assert_eq!(normalize_url_input(""), "https://www.google.com/search?q=");
}

#[test]
fn normalized_urls_are_stable() {
    for s in ["x y", "a.b", "https://q", "http", "ftp://x"] {
        let once = normalize_url_input(s);
        assert_eq!(normalize_url_input(&once), once);
    }
}

#[test]
fn browser_start_page() {
    assert_eq!(initial_load_uri(None), "https://google.com");
    assert_eq!(initial_load_uri(Some("https://x.y")), "https://x.y");
}

#[test]
fn restored_tab_ignores_blank_addresses_until_it_loads() {
    let mut t = UriTracker::new(Some("https://saved"));
    assert!(!t.on_uri_changed(""));
    assert!(!t.on_uri_changed("about:blank"));
    assert!(t.on_uri_changed("https://saved"));
    assert!(t.on_uri_changed("about:blank"));
    let mut fresh = UriTracker::new(None);
    assert!(fresh.on_uri_changed("about:blank"));
}

#[test]
fn blank_text_is_white_space_only() {
    assert!(trims_to_empty(""));
    assert!(trims_to_empty(" \t\n\u{a0}\u{2028}"));
    assert!(!trims_to_empty(" x "));
    for s in ["\u{85}", "\u{200b}", "\u{1680}", "a"] {
        assert_eq!(trims_to_empty(s), s.trim().is_empty(), "input {s:?}");
    }
}

#[test]
fn titles_are_cut_by_bytes() {
    assert_eq!(terminal_title_display("short"), "short");
    let long = "abcdefghijklmnopqrstuvwxyz";
    assert_eq!(terminal_title_display(long), "abcdefghijklmnopqrstu…");
    // 10 two-byte letters then ASCII: byte 21 ends a character.
    let mixed = "ééééééééééxyz";
    assert_eq!(terminal_title_display(mixed), format!("{}…", &mixed[..21]));
}

#[test]
fn env_values_append_with_a_comma() {
    assert_eq!(appended_env_value(Some("a"), "b"), "a,b");
    assert_eq!(appended_env_value(Some(""), "b"), "b");
    assert_eq!(appended_env_value(None, "gles-api,vulkan"), "gles-api,vulkan");
}

#[test]
fn shell_defaults_to_bash() {
    assert_eq!(shell_or_default(None), "/bin/bash");
    assert_eq!(shell_or_default(Some("/bin/zsh".into())), "/bin/zsh");
}

#[test]
fn str_equal_compares_characters() {
    assert!(str_equal("", ""));
    assert!(str_equal("tab-ü", "tab-ü"));
    assert!(!str_equal("tab", "tab "));
    assert!(!str_equal("abc", "abd"));
}
