use dayrecord::settings::{
    after_summary, auto_export_enabled, finish_insights_job, finish_summary_job, auto_export_value, consent_granted, export_dir_setting,
    flag_value, recording_enabled, summary_message, tray_action, validate_api_key,
    AfterSummary, InsightsJobResult, JobGate, SummaryJobResult, TrayAction, API_KEY_EMPTY, JOB_BUSY,
};

#[test]
fn setting_flags_read_back() {
    assert!(consent_granted(&Some("true".into())));
    assert!(!consent_granted(&Some("TRUE".into())));
    assert!(!consent_granted(&None));
    assert!(recording_enabled(&None));
    assert!(recording_enabled(&Some("true".into())));
    assert!(!recording_enabled(&Some("false".into())));
    assert!(auto_export_enabled(&Some("1".into())));
    assert!(!auto_export_enabled(&Some("0".into())));
    for on in [true, false] {
        assert_eq!(consent_granted(&Some(flag_value(on).to_string())), on);
        assert_eq!(recording_enabled(&Some(flag_value(on).to_string())), on);
        assert_eq!(auto_export_enabled(&Some(auto_export_value(on).to_string())), on);
    }
}

#[test]
fn api_key_input_is_trimmed_or_refused() {
    assert_eq!(validate_api_key("  sk-1 \n"), Ok("sk-1".to_string()));
    assert_eq!(validate_api_key("   "), Err(API_KEY_EMPTY.to_string()));
    assert_eq!(export_dir_setting("  /tmp/mem  "), "/tmp/mem");
}

#[test]
fn job_gate_admits_one_job() {
    let mut gate = JobGate::new();
    assert!(!gate.is_busy());
    assert!(gate.try_begin().is_ok());
    assert!(gate.is_busy());
    assert_eq!(gate.try_begin(), Err(JOB_BUSY.to_string()));
    gate.finish();
    assert!(!gate.is_busy());
    assert!(gate.try_begin().is_ok());
}

#[test]
fn insights_result_from_outcome() {
    let r = InsightsJobResult::from_outcome(Ok(3));
    assert!(r.ok);
    assert_eq!(r.fact_count, Some(3));
    assert!(r.error.is_none());
    let r = InsightsJobResult::from_outcome(Err("llm down".into()));
    assert!(!r.ok);
    assert_eq!(r.error.as_deref(), Some("llm down"));
}

#[test]
fn summary_follow_up_and_message() {
    assert_eq!(after_summary(false, true), AfterSummary { extract_insights: false, export_memory: false });
    assert_eq!(after_summary(true, false), AfterSummary { extract_insights: false, export_memory: true });
    let both = after_summary(true, true);
    assert_eq!(summary_message(after_summary(false, false), None), "复盘已生成");
    assert_eq!(summary_message(both, None), "复盘已生成，并已后台抽取行为洞察");
    assert_eq!(
        summary_message(both, Some("/data/export".into())),
        "复盘已生成，记忆已导出至 /data/export"
    );
}

#[test]
fn tray_menu_actions() {
    assert_eq!(tray_action("open", true), TrayAction::ShowMainWindow);
    assert_eq!(tray_action("pause", true), TrayAction::SetRecording(false));
    assert_eq!(tray_action("pause", false), TrayAction::SetRecording(true));
    assert_eq!(tray_action("quit", false), TrayAction::Quit);
    assert_eq!(tray_action("other", false), TrayAction::Ignore);
}

#[test]
fn finished_summary_job_reports_once_and_frees_the_gate() {
    let mut gate = JobGate::new();
    gate.try_begin().unwrap();
    let plan = after_summary(true, true);
    let r = finish_summary_job(&mut gate, Ok::<&str, String>("# 复盘"), plan, Some("/out".into()));
    assert!(!gate.is_busy());
    assert!(r.ok);
    assert_eq!(r.summary, Some("# 复盘"));
    assert!(r.error.is_none());
    assert_eq!(r.message.as_deref(), Some("复盘已生成，记忆已导出至 /out"));

    gate.try_begin().unwrap();
    let r = finish_summary_job(&mut gate, Err::<&str, String>("llm down".into()), plan, None);
    assert!(!gate.is_busy());
    assert!(!r.ok);
    assert!(r.summary.is_none());
    assert_eq!(r.error.as_deref(), Some("llm down"));
    assert!(r.message.is_none());

    let r: SummaryJobResult<u8> = SummaryJobResult::from_outcome(Ok(7), after_summary(false, false), None);
    assert_eq!(r.message.as_deref(), Some("复盘已生成"));
}

#[test]
fn finished_insights_job_frees_the_gate() {
    let mut gate = JobGate::new();
    gate.try_begin().unwrap();
    let r = finish_insights_job(&mut gate, Ok(5));
    assert!(!gate.is_busy());
    assert!(r.ok);
    assert_eq!(r.fact_count, Some(5));
}
