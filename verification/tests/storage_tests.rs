use dayrecord::storage::{
    char_total_fits_u32, day_stats, sum_fits_u32, fts_query, migration_plan, session_worth_storing, settings_to_restore, DayStats,
    MigrationStep, SchemaProbe, SCHEMA_VERSION,
};

fn probe(v: i32, sessions: bool, backspace: bool, flow: bool, tasks: bool) -> SchemaProbe {
    SchemaProbe {
        user_version: v,
        sessions_table: sessions,
        backspace_column: backspace,
        flow_events_table: flow,
        task_units_table: tasks,
    }
}

#[test]
fn fresh_database_gets_schema() {
    assert_eq!(
        migration_plan(probe(0, false, false, false, false)),
        vec![MigrationStep::CreateSchema, MigrationStep::SetUserVersion(SCHEMA_VERSION)]
    );
}

#[test]
fn current_database_only_sets_version() {
    assert_eq!(
        migration_plan(probe(3, true, true, true, true)),
        vec![MigrationStep::SetUserVersion(3)]
    );
}

#[test]
fn version_one_is_rebuilt() {
    let plan = migration_plan(probe(1, true, false, false, false));
    assert_eq!(plan[0], MigrationStep::DropAll);
    assert_eq!(plan.last(), Some(&MigrationStep::SetUserVersion(3)));
}

#[test]
fn migrates_v2_to_v3_preserves_sessions() {
    let plan = migration_plan(probe(2, true, false, false, false));
    assert!(!plan.contains(&MigrationStep::DropAll));
    assert!(plan.contains(&MigrationStep::AddBackspaceColumn));
    assert!(plan.contains(&MigrationStep::CreateFlowEvents));
    assert!(plan.contains(&MigrationStep::CreateTaskUnits));
    assert_eq!(
        plan,
        vec![
            MigrationStep::AddBackspaceColumn,
            MigrationStep::CreateFlowEvents,
            MigrationStep::CreateTaskUnits,
            MigrationStep::SetUserVersion(3),
        ]
    );
}

#[test]
fn unversioned_file_with_sessions_counts_as_version_two() {
    assert_eq!(
        migration_plan(probe(0, true, true, true, true)),
        vec![MigrationStep::SetUserVersion(3)]
    );
    assert_eq!(migration_plan(probe(2, false, false, false, false))[0], MigrationStep::DropAll);
}

#[test]
fn blank_sessions_are_skipped() {
    assert!(!session_worth_storing("   ", &None));
    assert!(!session_worth_storing("", &Some(" \n".to_string())));
    assert!(session_worth_storing("hello", &None));
    assert!(session_worth_storing("", &Some("screen text".to_string())));
}

#[test]
fn fts_query_joins_words_with_or() {
    assert_eq!(fts_query("DayRecord"), "DayRecord");
    assert_eq!(fts_query("  rust   verus\tproof "), "rust OR verus OR proof");
    assert_eq!(fts_query("   "), "");
}

#[test]
fn day_stats_sums_counts() {
    let s = day_stats(
        &vec!["hello".to_string(), "字符".to_string()],
        &vec![60, 120, 180],
        5,
    );
    assert_eq!(
        s,
        DayStats { active_seconds: 360, session_count: 2, char_count: 7, pending_chars: 5 }
    );
}

#[test]
fn clear_preserves_consent() {
    assert_eq!(
        settings_to_restore(Some("true".into()), None, None),
        vec![("consent".to_string(), "true".to_string())]
    );
    let kept = settings_to_restore(Some("true".into()), None, Some("1".into()));
    assert_eq!(
        kept,
        vec![
            ("consent".to_string(), "true".to_string()),
            ("auto_export".to_string(), "1".to_string()),
        ]
    );
    assert!(settings_to_restore(None, None, None).is_empty());
}

#[test]
fn overflow_checks_for_day_stats() {
    assert!(sum_fits_u32(&vec![]));
    assert!(sum_fits_u32(&vec![u32::MAX]));
    assert!(sum_fits_u32(&vec![u32::MAX - 1, 1]));
    assert!(!sum_fits_u32(&vec![u32::MAX, 1]));
    assert!(!sum_fits_u32(&vec![1 << 31, 1 << 31, 0]));
    assert!(char_total_fits_u32(&vec!["abc".to_string(), "字".to_string()]));
}
