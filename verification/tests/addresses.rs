use oauth_capture::config::{
    get_listen_address, get_oauth_redirect_uri, is_mobile_platform, CaptureConfig, Platform,
    MOBILE_REDIRECT_URI, OAUTH_CALLBACK_PORT,
};
use oauth_capture::route::{classify, Route};
use oauth_capture::text::{push_decimal, same_text, starts_with};

fn numeral(n: u16) -> String {
    let mut out = String::new();
    push_decimal(&mut out, n);
    out
}

#[test]
fn default_config_has_the_fixed_values() {
    let config = CaptureConfig::default();
    assert_eq!(config.port, 9274);
    assert_eq!(OAUTH_CALLBACK_PORT, 9274);
    assert_eq!(
        config.external_redirect_uri,
        "https://jkalasas.github.io/skeen/oauth-callback.html"
    );
    assert_eq!(MOBILE_REDIRECT_URI, "https://jkalasas.github.io/skeen/oauth-callback.html");
}

#[test]
fn desktop_redirect_uri_is_the_loopback_form() {
    let config = CaptureConfig::default();
    assert_eq!(
        get_oauth_redirect_uri(Platform::Desktop, &config),
        "http://127.0.0.1:9274/callback"
    );
}

#[test]
fn desktop_redirect_uri_follows_the_configured_port() {
    for (port, expected) in [
        (0u16, "http://127.0.0.1:0/callback"),
        (80, "http://127.0.0.1:80/callback"),
        (8080, "http://127.0.0.1:8080/callback"),
        (65535, "http://127.0.0.1:65535/callback"),
    ] {
        let config = CaptureConfig { port, external_redirect_uri: "https://example.org/x".to_string() };
        assert_eq!(get_oauth_redirect_uri(Platform::Desktop, &config), expected);
    }
}

#[test]
fn mobile_platform_uses_the_external_uri() {
    for target in ["android", "ios"] {
        let platform = Platform::from_target_os(target);
        assert_eq!(platform, Platform::Mobile);
        assert!(is_mobile_platform(platform));
        let uri = get_oauth_redirect_uri(platform, &CaptureConfig::default());
        assert_eq!(uri, "https://jkalasas.github.io/skeen/oauth-callback.html");
        assert!(!uri.starts_with("http://127.0.0.1"));
        assert_ne!(uri, get_oauth_redirect_uri(Platform::Desktop, &CaptureConfig::default()));
    }
}

#[test]
fn mobile_redirect_uri_follows_the_configuration() {
    let config = CaptureConfig { port: 1234, external_redirect_uri: "https://example.org/done".to_string() };
    assert_eq!(get_oauth_redirect_uri(Platform::Mobile, &config), "https://example.org/done");
}

#[test]
fn other_targets_are_desktop() {
    for target in ["linux", "macos", "windows", "freebsd", "", "Android", "iOS", "androids", "io", "ios "] {
        let platform = Platform::from_target_os(target);
        assert_eq!(platform, Platform::Desktop);
        assert!(!is_mobile_platform(platform));
    }
}

#[test]
fn listen_address_is_loopback_and_port() {
    assert_eq!(get_listen_address(9274), "127.0.0.1:9274");
    assert_eq!(get_listen_address(0), "127.0.0.1:0");
    assert_eq!(get_listen_address(65535), "127.0.0.1:65535");
}

#[test]
fn redirect_uri_names_the_listen_address() {
    for port in [1u16, 443, 9274, 50000] {
        let config = CaptureConfig { port, external_redirect_uri: String::new() };
        let expected = format!("http://{}/callback", get_listen_address(port));
        assert_eq!(get_oauth_redirect_uri(Platform::Desktop, &config), expected);
    }
}

#[test]
fn decimal_numerals_are_exact() {
    assert_eq!(numeral(0), "0");
    assert_eq!(numeral(7), "7");
    assert_eq!(numeral(9), "9");
    assert_eq!(numeral(10), "10");
    assert_eq!(numeral(99), "99");
    assert_eq!(numeral(100), "100");
    assert_eq!(numeral(1005), "1005");
    assert_eq!(numeral(9274), "9274");
    assert_eq!(numeral(60000), "60000");
    assert_eq!(numeral(65535), "65535");
}

#[test]
fn decimal_numerals_agree_with_the_standard_library() {
    let mut n: u16 = 0;
    loop {
        assert_eq!(numeral(n), n.to_string());
        if n == u16::MAX {
            break;
        }
        n += 1;
    }
}

#[test]
fn push_decimal_appends() {
    let mut out = String::from("port ");
    push_decimal(&mut out, 9274);
    push_decimal(&mut out, 0);
    assert_eq!(out, "port 92740");
}

#[test]
fn starts_with_compares_characters() {
    assert!(starts_with("/token?x=1", "/token"));
    assert!(starts_with("/token", "/token"));
    assert!(starts_with("anything", ""));
    assert!(starts_with("", ""));
    assert!(!starts_with("", "/token"));
    assert!(!starts_with("/toke", "/token"));
    assert!(!starts_with("/tokeN", "/token"));
    assert!(!starts_with("x/token", "/token"));
    assert!(starts_with("\u{e9}t\u{e9}", "\u{e9}t"));
    assert!(!starts_with("\u{e9}t\u{e9}", "et"));
}

#[test]
fn same_text_compares_characters() {
    assert!(same_text("", ""));
    assert!(same_text("android", "android"));
    assert!(!same_text("android", "androi"));
    assert!(!same_text("androi", "android"));
    assert!(!same_text("android", "androiD"));
    assert!(!same_text("", "ios"));
    assert!(same_text("\u{1f511}", "\u{1f511}"));
    assert!(!same_text("\u{1f511}", "\u{1f512}"));
}

#[test]
fn urls_are_routed_by_prefix() {
    assert_eq!(classify("/token"), Route::Token);
    assert_eq!(classify("/token?access_token=abc123"), Route::Token);
    assert_eq!(classify("/tokenize"), Route::Token);
    assert_eq!(classify("/token/callback"), Route::Token);
    assert_eq!(classify("/callback"), Route::Callback);
    assert_eq!(classify("/callback?code=1"), Route::Callback);
    assert_eq!(classify("/callbacks"), Route::Callback);
    assert_eq!(classify("/callback/token"), Route::Callback);
    assert_eq!(classify(""), Route::Unmatched);
    assert_eq!(classify("/"), Route::Unmatched);
    assert_eq!(classify("/favicon.ico"), Route::Unmatched);
    assert_eq!(classify("/toke"), Route::Unmatched);
    assert_eq!(classify("/callbac"), Route::Unmatched);
    assert_eq!(classify("/TOKEN"), Route::Unmatched);
    assert_eq!(classify(" /token"), Route::Unmatched);
}

#[test]
fn what_the_intermediate_page_submits_reaches_the_token_endpoint() {
    for fragment in ["", "access_token=abc123", "a=1&b=2", "#", "\u{1f511}"] {
        let url = format!("/token?{}", fragment);
        assert_eq!(classify(&url), Route::Token);
    }
}
