use dayrecord::uia_common::{compose_snapshot, looks_like_url, MAX_UIA_CHARS};

#[test]
fn uia_url_heuristic_accepts_common_forms() {
    assert!(looks_like_url("https://github.com/HKUDS/CatchMe"));
    assert!(looks_like_url("github.com/HKUDS/CatchMe"));
    assert!(looks_like_url("example.com"));
    assert!(looks_like_url("http://localhost:8765"));
}

#[test]
fn uia_url_heuristic_rejects_prose_and_numbers() {
    assert!(!looks_like_url("hello world"));
    assert!(!looks_like_url("3.14"));
    assert!(!looks_like_url(""));
    assert!(!looks_like_url("just some note with spaces.com here"));
}

#[test]
fn uia_compose_dedups_focus_inside_window() {
    let s = compose_snapshot(
        Some("查询订单状态".to_string()),
        Some("用户：查询订单状态\n客服：好的，请稍候".to_string()),
        None,
    )
    .unwrap();
    assert!(!s.contains("[焦点]"));
    assert!(s.contains("[可见内容]"));
}

#[test]
fn uia_compose_keeps_distinct_focus_and_url() {
    let s = compose_snapshot(
        Some("draft reply".to_string()),
        Some("inbox conversation body".to_string()),
        Some("mail.example.com/inbox".to_string()),
    )
    .unwrap();
    assert!(s.contains("[网址]"));
    assert!(s.contains("[焦点] draft reply"));
    assert!(s.contains("[可见内容]"));
}

#[test]
fn uia_compose_returns_none_when_empty() {
    assert!(compose_snapshot(None, None, None).is_none());
    assert!(compose_snapshot(Some("   ".to_string()), Some("".to_string()), None).is_none());
}

#[test]
fn uia_compose_truncates_to_cap() {
    let big = "字".repeat(MAX_UIA_CHARS + 500);
    let s = compose_snapshot(None, Some(big), None).unwrap();
    assert!(s.chars().count() <= MAX_UIA_CHARS);
}
