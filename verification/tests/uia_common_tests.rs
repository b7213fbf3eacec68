use dayrecord::uia_common::{
    compose_snapshot, is_browser_noise, is_chrome_noise, looks_like_url, push_unique_text,
    push_unique_window_text, truncate_text, MAX_UIA_CHARS,
};

#[test]
fn uia_common_url_heuristic_accepts_common_forms() {
    assert!(looks_like_url("https://github.com/HKUDS/CatchMe"));
    assert!(looks_like_url("github.com/HKUDS/CatchMe"));
    assert!(looks_like_url("example.com"));
    assert!(looks_like_url("http://localhost:8765"));
}

#[test]
fn uia_common_url_heuristic_rejects_prose_and_numbers() {
    assert!(!looks_like_url("hello world"));
    assert!(!looks_like_url("3.14"));
    assert!(!looks_like_url(""));
    assert!(!looks_like_url("just some note with spaces.com here"));
}

#[test]
fn uia_common_compose_dedups_focus_inside_window() {
    let s = compose_snapshot(
        Some("查询订单状态".to_string()),
        Some("用户：查询订单状态\n客服：好的，请稍候".to_string()),
        None,
    )
    .unwrap();
    assert!(!s.contains("[焦点]"));
    assert!(s.contains("[可见内容]"));
}

#[test]
fn uia_common_compose_keeps_distinct_focus_and_url() {
    let s = compose_snapshot(
        Some("draft reply".to_string()),
        Some("inbox conversation body".to_string()),
        Some("mail.example.com/inbox".to_string()),
    )
    .unwrap();
    assert!(s.contains("[网址]"));
    assert!(s.contains("[焦点] draft reply"));
    assert!(s.contains("[可见内容]"));
}

#[test]
fn uia_common_compose_returns_none_when_empty() {
    assert!(compose_snapshot(None, None, None).is_none());
    assert!(compose_snapshot(Some("   ".to_string()), Some("".to_string()), None).is_none());
}

#[test]
fn uia_common_compose_truncates_to_cap() {
    let big = "字".repeat(MAX_UIA_CHARS + 500);
    let s = compose_snapshot(None, Some(big), None).unwrap();
    assert!(s.chars().count() <= MAX_UIA_CHARS);
}

#[test]
fn browser_noise_covers_safari() {
    assert!(is_browser_noise("Safari"));
    assert!(is_browser_noise("Favorites"));
    assert!(is_browser_noise("Back"));
    assert!(!is_browser_noise("Hello World"));
}

#[test]
fn compose_orders_url_focus_window() {
    let s = compose_snapshot(
        Some("  draft  ".to_string()),
        Some("body".to_string()),
        Some(" example.com ".to_string()),
    )
    .unwrap();
    assert_eq!(s, "[网址] example.com\n[焦点] draft\n[可见内容] body");
}

#[test]
fn compose_focus_only() {
    let s = compose_snapshot(Some("only focus".to_string()), None, None).unwrap();
    assert_eq!(s, "[焦点] only focus");
}

#[test]
fn truncate_keeps_short_text() {
    assert_eq!(truncate_text("short".to_string()), "short");
    let exact = "a".repeat(MAX_UIA_CHARS);
    assert_eq!(truncate_text(exact.clone()), exact);
}

#[test]
fn truncate_cuts_long_text_with_ellipsis() {
    let long = "b".repeat(MAX_UIA_CHARS + 1);
    let t = truncate_text(long);
    assert_eq!(t.chars().count(), MAX_UIA_CHARS);
    assert!(t.ends_with('…'));
    assert_eq!(t.chars().filter(|c| *c == 'b').count(), MAX_UIA_CHARS - 1);
}

#[test]
fn chrome_noise_list() {
    assert!(is_chrome_noise("Reload"));
    assert!(is_chrome_noise("Microsoft Edge"));
    assert!(!is_chrome_noise("Safari"));
    assert!(!is_browser_noise("Hello"));
}

#[test]
fn url_heuristic_edge_cases() {
    assert!(looks_like_url("file:///tmp/x"));
    assert!(!looks_like_url("a.b"));
    assert!(!looks_like_url("localhost"));
}

#[test]
fn push_unique_skips_noise_and_nested_text() {
    let mut texts: Vec<String> = Vec::new();
    let mut total: usize = 0;
    push_unique_text(&mut texts, &mut total, "hello world".to_string());
    assert_eq!(texts, vec!["hello world".to_string()]);
    assert_eq!(total, 11);
    push_unique_text(&mut texts, &mut total, "world".to_string());
    push_unique_text(&mut texts, &mut total, "Safari".to_string());
    push_unique_text(&mut texts, &mut total, "   ".to_string());
    assert_eq!(texts.len(), 1);
    assert_eq!(total, 11);
    push_unique_text(&mut texts, &mut total, "  other text ".to_string());
    assert_eq!(texts, vec!["hello world".to_string(), "other text".to_string()]);
    assert_eq!(total, 21);
}

#[test]
fn push_unique_window_text_filters_chrome_labels() {
    let mut texts: Vec<String> = Vec::new();
    let mut total: usize = 0;
    push_unique_window_text(&mut texts, &mut total, "Reload".to_string());
    assert!(texts.is_empty());
    push_unique_window_text(&mut texts, &mut total, "Favorites".to_string());
    assert_eq!(texts, vec!["Favorites".to_string()]);
    assert_eq!(total, 9);
}
