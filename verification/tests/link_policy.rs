use tray_shell::link_policy::{
    bridge_poll_step, classify_navigation, handle_click, handle_window_open, BridgePollAction,
    ClickOutcome, DomNode, NavDecision, WindowOpenOutcome, BRIDGE_POLL_DELAY_MS,
};

#[test]
fn classify_external_url_routes_to_bridge() {
    assert_eq!(
        classify_navigation("https://malicious.example/x"),
        NavDecision::OpenExternally
    );
}

#[test]
fn classify_allowlisted_url_navigates_normally() {
    assert_eq!(
        classify_navigation("https://web.whatsapp.com/chat/1"),
        NavDecision::PassThrough
    );
}

#[test]
fn classify_mailto_passes_through() {
    assert_eq!(classify_navigation("mailto:a@b.com"), NavDecision::PassThrough);
}

#[test]
fn classify_relative_path_passes_through() {
    assert_eq!(classify_navigation("/relative/path"), NavDecision::PassThrough);
}

#[test]
fn classify_plain_http_is_external() {
    assert_eq!(
        classify_navigation("http://example.org/page"),
        NavDecision::OpenExternally
    );
}

#[test]
fn classify_javascript_scheme_passes_through() {
    assert_eq!(
        classify_navigation("javascript:void(0)"),
        NavDecision::PassThrough
    );
}

#[test]
fn classify_empty_url_passes_through() {
    assert_eq!(classify_navigation(""), NavDecision::PassThrough);
}

#[test]
fn classify_substring_allowlist_ambiguity_is_preserved() {
    // The allowlist is a substring match, so a hostile URL that merely
    // mentions the allowlisted host is left to navigate in the view.
    assert_eq!(
        classify_navigation("https://evil.example/?x=web.whatsapp.com"),
        NavDecision::PassThrough
    );
}

#[test]
fn classify_scheme_must_be_a_prefix() {
    assert_eq!(
        classify_navigation("see https://example.org"),
        NavDecision::PassThrough
    );
}

#[test]
fn window_open_without_url_is_forwarded() {
    assert_eq!(handle_window_open(None), WindowOpenOutcome::Forward);
}

#[test]
fn window_open_external_url_is_intercepted() {
    assert_eq!(
        handle_window_open(Some("https://news.example/story")),
        WindowOpenOutcome::Intercept
    );
}

#[test]
fn window_open_allowlisted_url_is_forwarded() {
    assert_eq!(
        handle_window_open(Some("https://web.whatsapp.com/call/2")),
        WindowOpenOutcome::Forward
    );
}

fn plain(tag_href: Option<&str>) -> DomNode {
    DomNode {
        is_anchor: false,
        href: tag_href.map(|h| h.to_string()),
    }
}

fn anchor(href: Option<&str>) -> DomNode {
    DomNode {
        is_anchor: true,
        href: href.map(|h| h.to_string()),
    }
}

#[test]
fn click_inside_external_anchor_is_intercepted() {
    let chain = vec![
        plain(None),
        plain(None),
        anchor(Some("https://malicious.example/x")),
    ];
    match handle_click(&chain) {
        ClickOutcome::Intercept { url } => assert_eq!(url, "https://malicious.example/x"),
        ClickOutcome::Default => panic!("expected the click to be intercepted"),
    }
}

#[test]
fn click_on_allowlisted_anchor_is_default() {
    let chain = vec![anchor(Some("https://web.whatsapp.com/chat/1"))];
    assert!(matches!(handle_click(&chain), ClickOutcome::Default));
}

#[test]
fn click_with_no_anchor_is_default() {
    let chain = vec![plain(None), plain(Some("https://ignored.example/"))];
    assert!(matches!(handle_click(&chain), ClickOutcome::Default));
}

#[test]
fn click_on_empty_chain_is_default() {
    let chain: Vec<DomNode> = Vec::new();
    assert!(matches!(handle_click(&chain), ClickOutcome::Default));
}

#[test]
fn click_stops_at_first_anchor_even_without_href() {
    // The walk stops at the innermost anchor; an outer anchor with an
    // external href is never consulted.
    let chain = vec![
        plain(None),
        anchor(None),
        anchor(Some("https://malicious.example/x")),
    ];
    assert!(matches!(handle_click(&chain), ClickOutcome::Default));
}

#[test]
fn click_on_mailto_anchor_is_default() {
    let chain = vec![plain(None), anchor(Some("mailto:a@b.com"))];
    assert!(matches!(handle_click(&chain), ClickOutcome::Default));
}

#[test]
fn bridge_poll_installs_when_ready() {
    assert_eq!(bridge_poll_step(true), BridgePollAction::Install);
}

#[test]
fn bridge_poll_retries_after_fixed_delay() {
    assert_eq!(
        bridge_poll_step(false),
        BridgePollAction::RetryAfter { delay_ms: 100 }
    );
    assert_eq!(BRIDGE_POLL_DELAY_MS, 100);
}
