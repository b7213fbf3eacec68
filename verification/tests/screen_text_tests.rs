use dayrecord::screen_text::{
    ax_focused_text, ax_readable_text, may_queue_child, uia_focused_text, uia_readable_text, AxNode, NodeStep, TextWalk, UiaControl, UiaNode,
};
use dayrecord::uia_common::{MAX_CHILDREN_PER_NODE, MAX_NODES, MAX_WINDOW_TEXT_CHARS};

fn uia(control: UiaControl, text: Option<&str>, name: Option<&str>, value: Option<&str>) -> UiaNode {
    UiaNode {
        control,
        is_password: false,
        text_pattern: text.map(str::to_string),
        name: name.map(str::to_string),
        value: value.map(str::to_string),
    }
}

fn ax(role: &str, subrole: Option<&str>, value: Option<&str>, description: Option<&str>, title: Option<&str>) -> AxNode {
    AxNode {
        role: Some(role.to_string()),
        subrole: subrole.map(str::to_string),
        value: value.map(str::to_string),
        description: description.map(str::to_string),
        title: title.map(str::to_string),
    }
}

#[test]
fn uia_readable_priorities() {
    assert_eq!(uia_readable_text(&uia(UiaControl::Pane, Some("doc"), Some("name"), None)), Some("doc".into()));
    assert_eq!(uia_readable_text(&uia(UiaControl::Hyperlink, Some("  "), Some("Open file"), None)), Some("Open file".into()));
    assert_eq!(uia_readable_text(&uia(UiaControl::Hyperlink, None, Some("Go"), None)), None);
    assert_eq!(uia_readable_text(&uia(UiaControl::Other, None, Some("Long name"), None)), None);
    assert_eq!(uia_readable_text(&uia(UiaControl::Edit, None, Some("Address"), Some("typed"))), Some("typed".into()));
}

#[test]
fn ax_readable_by_role() {
    assert_eq!(ax_readable_text(&ax("AXTextField", None, Some("v"), Some("d"), None)), Some("v".into()));
    assert_eq!(ax_readable_text(&ax("AXTextArea", None, Some(" "), Some("d"), None)), Some("d".into()));
    assert_eq!(ax_readable_text(&ax("AXStaticText", None, Some("v"), None, Some("t"))), Some("v".into()));
    assert_eq!(ax_readable_text(&ax("AXHeading", None, None, None, Some("Title"))), Some("Title".into()));
    assert_eq!(ax_readable_text(&ax("AXLink", None, None, Some("Go"), None)), None);
    assert_eq!(ax_readable_text(&ax("AXLink", None, None, None, Some("Pricing"))), Some("Pricing".into()));
    assert_eq!(ax_readable_text(&ax("AXButton", None, Some("OK"), None, None)), None);
    let no_role = AxNode { role: None, subrole: None, value: Some("x".into()), description: None, title: None };
    assert_eq!(ax_readable_text(&no_role), None);
}

#[test]
fn uia_walk_collects_and_finds_url() {
    let mut w = TextWalk::new();
    assert!(w.should_continue());
    assert_eq!(w.visit_uia(&uia(UiaControl::Document, Some("page body text"), None, None)), NodeStep::SkipChildren);
    assert_eq!(w.visit_uia(&uia(UiaControl::Edit, None, None, Some(" example.com/path "))), NodeStep::VisitChildren);
    assert_eq!(w.visit_uia(&uia(UiaControl::Edit, None, None, Some("other.org"))), NodeStep::VisitChildren);
    assert_eq!(w.visit_uia(&uia(UiaControl::Text, Some("body"), None, None)), NodeStep::SkipChildren);
    assert_eq!(w.visit_uia(&uia(UiaControl::Group, None, Some("Reload"), None)), NodeStep::VisitChildren);
    let mut pw = uia(UiaControl::Edit, None, None, Some("secret-password.com"));
    pw.is_password = true;
    assert_eq!(w.visit_uia(&pw), NodeStep::VisitChildren);
    let (text, url) = w.finish();
    assert_eq!(
        text,
        Some("page body text\nexample.com/path\nother.org".to_string())
    );
    assert_eq!(url, Some("example.com/path".to_string()));
}

#[test]
fn ax_walk_skips_secure_fields_and_safari_labels() {
    let mut w = TextWalk::new();
    assert_eq!(w.visit_ax(&ax("AXTextField", Some("AXSecureTextField"), Some("hunter2"), None, None)), NodeStep::VisitChildren);
    assert_eq!(w.visit_ax(&ax("AXGroup", None, None, Some("Favorites"), None)), NodeStep::VisitChildren);
    assert_eq!(w.visit_ax(&ax("AXWebArea", None, Some("article text"), None, None)), NodeStep::SkipChildren);
    assert_eq!(w.visit_ax(&ax("AXTextField", None, Some("https://example.com"), None, None)), NodeStep::VisitChildren);
    let (text, url) = w.finish();
    assert_eq!(text, Some("article text\nhttps://example.com".to_string()));
    assert_eq!(url, Some("https://example.com".to_string()));
}

#[test]
fn walk_stops_at_text_budget_and_node_budget() {
    let mut w = TextWalk::new();
    let big = "x".repeat(MAX_WINDOW_TEXT_CHARS + 10);
    w.visit_uia(&uia(UiaControl::Document, Some(&big), None, None));
    assert!(!w.should_continue());
    let (text, _) = w.finish();
    assert_eq!(text.unwrap().chars().count(), MAX_WINDOW_TEXT_CHARS);

    let mut w = TextWalk::new();
    let mut n = 0;
    while w.should_continue() {
        w.visit_uia(&uia(UiaControl::Other, None, None, None));
        n += 1;
    }
    assert_eq!(n, MAX_NODES);
    assert_eq!(w.finish(), (None, None));
}

#[test]
fn focused_element_text() {
    let mut f = uia(UiaControl::Edit, None, None, Some("draft"));
    assert_eq!(uia_focused_text(&f), Some("draft".into()));
    f.text_pattern = Some("full document".into());
    assert_eq!(uia_focused_text(&f), Some("full document".into()));
    f.is_password = true;
    assert_eq!(uia_focused_text(&f), None);
    assert_eq!(ax_focused_text(&ax("AXTextField", None, None, Some("desc"), None)), Some("desc".into()));
    assert_eq!(ax_focused_text(&ax("AXTextField", Some("AXSecureTextField"), Some("pw"), None, None)), None);
}

#[test]
fn children_cap_per_node() {
    assert!(may_queue_child(0));
    assert!(may_queue_child(MAX_CHILDREN_PER_NODE - 1));
    assert!(!may_queue_child(MAX_CHILDREN_PER_NODE));
    let queued = (0..1000usize).take_while(|n| may_queue_child(*n)).count();
    assert_eq!(queued, 200);
}
