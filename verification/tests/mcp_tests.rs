use dayrecord::mcp::{
    assert_no_raw_session_leak, consolidate_memory, control_error_json, default_days,
    empty_memory_text, generate_today_summary, get_recording_status, latest_index,
    leaks_raw_session, mcp_autostart_allowed, pause_recording, pick_working_on_now,
    resume_recording, route_error, route_mime, route_resource, ControlData, ControlError,
    ControlReply, ControlResponse, McpErrorJson, ResourceRoute, ToolFail, WorkingOnNow,
    WorkingPick, AUTOSTART_CONSENT_DENIED, AUTOSTART_ENV_DENIED, AUTOSTART_SETTING_DENIED,
    SERVICE_HINT,
};

fn data(recording: Option<bool>) -> ControlData {
    ControlData { recording, day: None, stats: None, summary_markdown: None, fact_count: None }
}

fn ok(d: ControlData) -> Result<ControlResponse, ControlError> {
    Ok(ControlResponse { ok: true, error: None, data: Some(d) })
}

#[test]
fn denied_without_consent() {
    let err = mcp_autostart_allowed(false, Ok(None), Ok(None)).unwrap_err();
    assert!(matches!(err, ControlError::AutostartDenied(_)));
}

#[test]
fn allowed_with_consent_default_autostart() {
    assert!(mcp_autostart_allowed(false, Ok(Some("true".into())), Ok(None)).is_ok());
}

#[test]
fn denied_when_autostart_disabled() {
    let err = mcp_autostart_allowed(false, Ok(Some("true".into())), Ok(Some("false".into())))
        .unwrap_err();
    assert!(matches!(err, ControlError::AutostartDenied(_)));
}

#[test]
fn autostart_messages_and_env_switch() {
    assert_eq!(
        mcp_autostart_allowed(true, Ok(Some("true".into())), Ok(None)),
        Err(ControlError::AutostartDenied(AUTOSTART_ENV_DENIED.to_string()))
    );
    assert_eq!(
        mcp_autostart_allowed(false, Ok(Some("yes".into())), Ok(None)),
        Err(ControlError::AutostartDenied(AUTOSTART_CONSENT_DENIED.to_string()))
    );
    assert_eq!(
        mcp_autostart_allowed(false, Ok(Some("true".into())), Ok(Some("false".into()))),
        Err(ControlError::AutostartDenied(AUTOSTART_SETTING_DENIED.to_string()))
    );
    assert_eq!(
        mcp_autostart_allowed(false, Err("db locked".into()), Ok(None)),
        Err(ControlError::Transport("db locked".to_string()))
    );
    assert_eq!(
        mcp_autostart_allowed(false, Ok(Some("true".into())), Err("io".into())),
        Err(ControlError::Transport("io".to_string()))
    );
    assert!(mcp_autostart_allowed(false, Ok(Some("true".into())), Ok(Some("true".into()))).is_ok());
}

#[test]
fn pause_resume_status_via_mock_control() {
    match pause_recording(ok(data(Some(false)))) {
        ControlReply::Done(s) => assert!(s.contains("paused")),
        other => panic!("unexpected reply {other:?}"),
    }
    match get_recording_status(ok(data(Some(false)))) {
        ControlReply::Status(Some(d)) => assert_eq!(d.recording, Some(false)),
        other => panic!("unexpected reply {other:?}"),
    }
    match resume_recording(ok(data(Some(true)))) {
        ControlReply::Done(s) => assert!(s.contains("resumed")),
        other => panic!("unexpected reply {other:?}"),
    }
}

#[test]
fn service_not_running_error_is_structured() {
    match generate_today_summary(Err(ControlError::ServiceNotRunning)) {
        ControlReply::Failed(e) => {
            assert!(e.error.contains("not running"));
            assert!(e.hint.as_deref().unwrap_or("").contains("daemon"));
        }
        other => panic!("unexpected reply {other:?}"),
    }
}

#[test]
fn summary_reply_variants() {
    let mut d = data(None);
    d.summary_markdown = Some("# 复盘 2026-06-13".to_string());
    match generate_today_summary(ok(d)) {
        ControlReply::Markdown(m) => assert_eq!(m, "# 复盘 2026-06-13"),
        other => panic!("unexpected reply {other:?}"),
    }
    match generate_today_summary(ok(data(None))) {
        ControlReply::Markdown(m) => assert_eq!(m, "（无复盘内容）"),
        other => panic!("unexpected reply {other:?}"),
    }
    let refused = Ok(ControlResponse { ok: false, error: None, data: None });
    match generate_today_summary(refused) {
        ControlReply::Failed(e) => {
            assert_eq!(e.error, "generate summary failed");
            assert!(e.hint.is_none());
        }
        other => panic!("unexpected reply {other:?}"),
    }
}

#[test]
fn consolidate_reply_variants() {
    let mut d = data(None);
    d.fact_count = Some(4);
    assert!(matches!(consolidate_memory(ok(d)), ControlReply::Consolidated(4)));
    assert!(matches!(consolidate_memory(ok(data(None))), ControlReply::Consolidated(0)));
    let refused = Ok(ControlResponse { ok: false, error: Some("busy".into()), data: None });
    match consolidate_memory(refused) {
        ControlReply::Failed(e) => assert_eq!(e.error, "busy"),
        other => panic!("unexpected reply {other:?}"),
    }
    match consolidate_memory(Err(ControlError::Transport("pipe closed".into()))) {
        ControlReply::Failed(e) => {
            assert_eq!(e.error, "control transport error: pipe closed");
            assert!(e.hint.is_none());
        }
        other => panic!("unexpected reply {other:?}"),
    }
}

#[test]
fn control_error_payloads() {
    let e = control_error_json(&ControlError::ServiceNotRunning);
    assert_eq!(e.error, "capture service is not running");
    assert_eq!(e.hint.as_deref(), Some(SERVICE_HINT));
    let e = control_error_json(&ControlError::AutostartDenied("no".into()));
    assert_eq!(e.error, "autostart denied: no");
    assert!(e.hint.is_none());
}

#[test]
fn tool_fail_wraps_error() {
    let f = ToolFail::new(McpErrorJson::msg("capture service is not running"));
    assert_eq!(f.0.error, "capture service is not running");
    assert!(f.0.hint.is_none());
}

#[test]
fn routes_resources() {
    assert_eq!(route_resource("dayrecord://user/profile"), ResourceRoute::Profile);
    assert_eq!(route_resource("dayrecord://facts/active"), ResourceRoute::Facts);
    assert_eq!(route_resource("dayrecord://context/today"), ResourceRoute::ContextToday);
    assert_eq!(
        route_resource("dayrecord://memory/2026-06-13"),
        ResourceRoute::Memory("2026-06-13".to_string())
    );
    assert_eq!(route_resource("dayrecord://memory/"), ResourceRoute::InvalidMemory);
    assert_eq!(route_resource("dayrecord://memory/a/b"), ResourceRoute::InvalidMemory);
    assert_eq!(route_resource("dayrecord://other"), ResourceRoute::Unknown);
    assert_eq!(route_mime(&ResourceRoute::Facts), Some("application/json"));
    assert_eq!(route_mime(&ResourceRoute::Memory("d".into())), Some("text/markdown"));
    assert_eq!(route_mime(&ResourceRoute::Unknown), None);
    assert_eq!(
        route_error(&ResourceRoute::Unknown, "x://y"),
        Some("unknown resource: x://y".to_string())
    );
    assert_eq!(
        route_error(&ResourceRoute::InvalidMemory, "dayrecord://memory/"),
        Some("invalid memory URI: dayrecord://memory/".to_string())
    );
    assert_eq!(route_error(&ResourceRoute::Profile, "p"), None);
    assert_eq!(empty_memory_text("2026-06-13"), "# 复盘 2026-06-13\n\n（暂无数据）");
}

#[test]
fn working_on_now_picks_latest() {
    assert_eq!(pick_working_on_now(&vec![], &vec![]), WorkingPick::EmptyDay);
    assert_eq!(latest_index(&vec![5, 9, 9, 1]), Some(2));
    assert_eq!(
        pick_working_on_now(&vec![3, 7], &vec![]),
        WorkingPick::Latest { activity: Some(1), task: None }
    );
    assert_eq!(
        pick_working_on_now(&vec![], &vec![2, 2]),
        WorkingPick::Latest { activity: None, task: Some(1) }
    );
}

#[test]
fn working_on_now_empty_day_placeholder() {
    assert_eq!(pick_working_on_now(&vec![], &vec![]), WorkingPick::EmptyDay);
    let w = WorkingOnNow::empty_day();
    assert!(w.message.as_deref().unwrap_or("").contains("暂无今日活动数据"));
    assert_eq!(w.message.as_deref(), Some("暂无今日活动数据"));
    assert!(w.task_name.is_none());
    assert_eq!(default_days(), 7);
}

#[test]
fn raw_session_leak_detection() {
    assert!(leaks_raw_session("a RAW_SECRET b", "RAW_SECRET"));
    assert!(!leaks_raw_session("clean output", "RAW_SECRET"));
    assert_no_raw_session_leak("clean output", "RAW_SECRET");
}

#[test]
fn failed_control_tools_carry_the_service_hint() {
    for reply in [
        pause_recording(Err(ControlError::ServiceNotRunning)),
        resume_recording(Err(ControlError::ServiceNotRunning)),
        get_recording_status(Err(ControlError::ServiceNotRunning)),
        consolidate_memory(Err(ControlError::ServiceNotRunning)),
    ] {
        match reply {
            ControlReply::Failed(e) => {
                assert_eq!(e.error, "capture service is not running");
                assert_eq!(e.hint.as_deref(), Some(SERVICE_HINT));
            }
            other => panic!("unexpected reply {other:?}"),
        }
    }
    match pause_recording(Err(ControlError::Transport("x".into()))) {
        ControlReply::Failed(e) => assert!(e.hint.is_none()),
        other => panic!("unexpected reply {other:?}"),
    }
}
