use dayrecord::platform::{
    utc_date, window_labels, ActiveWindowInfo, LinuxContextSampler, MacContextSampler,
    MockClipboard, StubWindowSampler, SystemClock,
};

#[test]
fn utc_date_formats_epoch_and_known_day() {
    assert_eq!(utc_date(0), Some("1970-01-01".to_string()));
    assert_eq!(utc_date(1_781_308_800_000), Some("2026-06-13".to_string()));
    assert_eq!(utc_date(i64::MAX), None);
}

#[test]
fn today_is_a_date() {
    let t = SystemClock.today().expect("clock after 1970");
    assert_eq!(t.len(), 10);
    assert_eq!(&t[4..5], "-");
    let now = SystemClock.now_millis().expect("clock after 1970");
    assert!(now > 1_700_000_000_000);
    assert!(utc_date(now).is_some());
}

#[test]
fn window_label_fallbacks() {
    assert_eq!(window_labels(None), ("unknown".to_string(), "unknown".to_string()));
    let info = ActiveWindowInfo {
        app_name: String::new(),
        process_file_name: Some("code.exe".into()),
        title: "main.rs".into(),
    };
    assert_eq!(window_labels(Some(info)), ("code.exe".to_string(), "main.rs".to_string()));
    let info = ActiveWindowInfo { app_name: "Notes".into(), process_file_name: None, title: String::new() };
    assert_eq!(window_labels(Some(info)), ("Notes".to_string(), "unknown".to_string()));
    let info = ActiveWindowInfo { app_name: String::new(), process_file_name: None, title: "t".into() };
    assert_eq!(window_labels(Some(info)), ("unknown".to_string(), "t".to_string()));
}

#[test]
fn stubs_and_mocks() {
    assert_eq!(StubWindowSampler.sample(), ("stub".to_string(), "stub".to_string()));
    assert_eq!(LinuxContextSampler.sample_context(), None);
    assert_eq!(MacContextSampler.sample_context(), None);
    assert_eq!(MockClipboard::new(Some("x".into())).read_text(), Ok(Some("x".to_string())));
    assert_eq!(MockClipboard::new(None).read_text(), Ok(None));
}
