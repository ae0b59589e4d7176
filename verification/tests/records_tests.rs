use course_pilot::notes::{search_notes_advanced_query, SqlParam};
use course_pilot::storage_utils::datetime_from_unix_seconds_at;
use course_pilot::course::{Course, Note};
use course_pilot::notes::{note_from_row, note_row, NoteRowError};
use course_pilot::course_rows::{
    module_from_row, module_row, section_from_row, section_row, video_from_row, video_row,
};
use course_pilot::dashboard::{
    content_preview, count_structured_courses, count_total_videos, course_card_status,
    course_card_summary, days_between, describe_date, duplicate_course, filter_courses,
    last_accessed_course, quick_access_status, relative_date_checked, relative_date_text,
    remove_course,
};
use course_pilot::db_policy::{
    after_failure, integrity_verdict, maintenance_steps, metrics_failure_message,
    needs_index_rebuild, record_maintenance_step, reindex_on_optimize, MaintenanceStep, RetryStep,
};
use course_pilot::duration::Duration;
use course_pilot::folders::{summarize_folder_scan, ScannedFile};
use course_pilot::ids::Uuid;
use course_pilot::import_job::{ImportJob, ImportStage, ImportStatus, StageStatus};
use course_pilot::plan::{Plan, PlanItem, PlanSettings};
use course_pilot::sessions_view::{
    todays_sessions, upcoming_sessions, urgency_display, urgency_level, UrgencyLevel,
};
use course_pilot::storage_reports::{
    activity_from_row, analyze_query_performance, check_health, classify_health,
    foreign_key_columns, foreign_key_violation, index_count_warning, maintenance_plan,
    missing_index_warning, missing_statistics_warning, search_result_from_row, validation_report,
    ActivityType, BadColumn, ConnectionPoolHealth, HealthInputs, HealthStatus, SearchResultType,
};
use course_pilot::time::UtcDateTime;

const DAY: i64 = 86_400;
const NOW: i64 = 1_704_164_645;

fn at(secs: i64) -> UtcDateTime {
    UtcDateTime { secs, nanos: 0 }
}

fn course(name: &str, titles: usize, created: i64) -> Course {
    let mut c = Course::new(name.to_string(), (0..titles).map(|i| format!("Video {i}")).collect());
    c.created_at = at(created);
    c
}

fn item(date: i64, completed: bool) -> PlanItem {
    PlanItem {
        date: at(date),
        module_title: "M".to_string(),
        section_title: "S".to_string(),
        video_indices: vec![0],
        completed,
        total_duration: Duration::from_secs(60),
        estimated_completion_time: Duration::from_secs(60),
        overflow_warnings: Vec::new(),
    }
}

fn plan(items: Vec<PlanItem>) -> Plan {
    let settings = PlanSettings {
        start_date: at(NOW),
        sessions_per_week: 3,
        session_length_minutes: 60,
        include_weekends: true,
        advanced_settings: None,
    };
    let mut p = Plan::new(Uuid { value: 1 }, settings);
    p.items = items;
    p
}

#[test]
fn dashboard_totals() {
    let courses = vec![course("A", 3, NOW), course("B", 0, NOW), course("C", 7, NOW)];
    assert_eq!(count_total_videos(&courses), 10);
    assert_eq!(count_structured_courses(&courses), 0);
}

#[test]
fn relative_dates() {
    assert_eq!(days_between(at(NOW), at(NOW + 3600)), 0);
    assert_eq!(days_between(at(NOW), at(NOW - 1)), 0);
    assert_eq!(days_between(at(NOW), at(NOW - DAY - 1)), -1);
    assert_eq!(relative_date_text(at(NOW), at(NOW + 10)), "today");
    assert_eq!(relative_date_text(at(NOW), at(NOW + DAY + 5)), "yesterday");
    assert_eq!(relative_date_text(at(NOW), at(NOW + 3 * DAY)), "3 days ago");
    assert_eq!(relative_date_text(at(NOW), at(NOW - 2 * DAY)), "-2 days ago");
    assert_eq!(relative_date_text(at(NOW), at(NOW + 15 * DAY)), "2 weeks ago");
    assert_eq!(relative_date_text(at(NOW), at(NOW + 40 * DAY)), "January 02, 2024");
    assert_eq!(relative_date_checked(at(i64::MAX), at(NOW)), None);
    assert!(describe_date(at(NOW)).is_some());
}

#[test]
fn search_box_filters_by_name_and_structure() {
    let courses = vec![course("Rust Basics", 1, NOW), course("Go", 1, NOW), course("Advanced RUST", 1, NOW)];
    assert_eq!(filter_courses(&courses, "rust", false), vec![0, 2]);
    assert_eq!(filter_courses(&courses, "", false), vec![0, 1, 2]);
    assert_eq!(filter_courses(&courses, "", true), Vec::<usize>::new());
}

#[test]
fn card_edits() {
    let a = course("A", 2, NOW);
    let b = course("B", 1, NOW);
    let a_id = a.id;
    let mut list = vec![a.clone(), b.clone(), a.clone()];
    remove_course(&mut list, a_id);
    assert_eq!(list, vec![b.clone()]);
    let copy = duplicate_course(b.clone());
    assert_eq!(copy.name, "B (Copy)");
    assert_eq!(copy.raw_titles, b.raw_titles);
    assert_ne!(copy.id, b.id);
    assert_eq!(course_card_summary(&b), (0, "Pending".to_string()));
    assert_eq!(course_card_status(false), ("unstructured", "Pending", "Structure Course"));
    assert_eq!(content_preview(5), (3, 2));
    assert_eq!(content_preview(2), (2, 0));
}

#[test]
fn last_accessed_is_latest_created_last_among_ties() {
    let courses = vec![course("A", 1, NOW), course("B", 1, NOW + 5), course("C", 1, NOW + 5), course("D", 1, NOW)];
    assert_eq!(last_accessed_course(&courses), Some(2));
    assert_eq!(last_accessed_course(&[]), None);
    assert_eq!(quick_access_status(true, false).0, "Create Study Plan");
    assert_eq!(quick_access_status(false, true).0, "Structure Course");
}

#[test]
fn upcoming_week_in_date_order() {
    let plans = vec![
        plan(vec![item(NOW + 3 * DAY, false), item(NOW + DAY, true), item(NOW - 10, false)]),
        plan(vec![item(NOW + 7 * DAY, false), item(NOW + 7 * DAY + 1, false), item(NOW + 3 * DAY, false)]),
    ];
    let r = upcoming_sessions(&plans, at(NOW));
    assert_eq!(r, vec![(0, 0), (1, 2), (1, 0)]);
    let today = todays_sessions(&plans, at(NOW - 100), at(NOW + DAY + 1));
    assert_eq!(today, vec![(0, 2), (0, 1)]);
}

#[test]
fn urgency_levels() {
    assert_eq!(urgency_level(at(NOW + DAY), at(NOW)), UrgencyLevel::Critical);
    assert_eq!(urgency_level(at(NOW + DAY + 1), at(NOW)), UrgencyLevel::High);
    assert_eq!(urgency_level(at(NOW + 4 * DAY), at(NOW)), UrgencyLevel::Medium);
    assert_eq!(urgency_level(at(NOW + 5 * DAY), at(NOW)), UrgencyLevel::Low);
    assert_eq!(urgency_display(UrgencyLevel::High).2, "Due tomorrow");
}

#[test]
fn import_job_stages() {
    let mut job = ImportJob::new("Starting".to_string());
    assert_eq!(job.stages.len(), 6);
    assert_eq!(job.stages[2].name, "TF-IDF Analysis");
    assert_eq!(job.status, ImportStatus::Starting);
    job.update_stage_progress(ImportStage::Processing, "Processing".to_string());
    assert_eq!(job.current_stage, ImportStage::Processing);
    assert_eq!(job.stages[1].status, StageStatus::InProgress);
    job.complete_stage(ImportStage::Processing, 120);
    assert_eq!(job.stages[1].duration_ms, Some(120));
    assert_eq!(job.current_stage, ImportStage::Fetching);
    assert_eq!(job.status, ImportStatus::InProgress);
    job.fail_stage(ImportStage::Saving, "disk full".to_string());
    assert_eq!(job.status, ImportStatus::Failed);
    assert_eq!(job.message, "disk full");
    assert_eq!(job.stages[5].status, StageStatus::Failed("disk full".to_string()));
    assert!(!job.can_cancel);
    let mut done = ImportJob::new("x".to_string());
    for stage in [
        ImportStage::Fetching,
        ImportStage::Processing,
        ImportStage::TfIdfAnalysis,
        ImportStage::KMeansClustering,
        ImportStage::Optimization,
        ImportStage::Saving,
    ] {
        done.complete_stage(stage, 1);
    }
    assert_eq!(done.status, ImportStatus::Completed);
    assert!(done.all_stages_completed());
    let mut cancelled = ImportJob::new("x".to_string());
    cancelled.mark_cancelled();
    assert_eq!(cancelled.message, "Import cancelled by user");
}

#[test]
fn retries_and_maintenance_decisions() {
    assert_eq!(after_failure(0), RetryStep::RetryAfter(100));
    assert_eq!(after_failure(1), RetryStep::RetryAfter(200));
    assert_eq!(after_failure(2), RetryStep::GiveUp);
    assert!(reindex_on_optimize(1001));
    assert!(!reindex_on_optimize(1000));
    assert!(needs_index_rebuild(5001));
    assert!(!needs_index_rebuild(5000));
    assert_eq!(integrity_verdict("ok"), Ok(()));
    assert_eq!(integrity_verdict("corrupt"), Err("Integrity check failed: corrupt".to_string()));
    let mut ops = Vec::new();
    let mut errors = Vec::new();
    let steps = maintenance_steps();
    assert_eq!(steps[0], MaintenanceStep::Cleanup);
    record_maintenance_step(&mut ops, &mut errors, MaintenanceStep::Cleanup, Ok(()));
    record_maintenance_step(&mut ops, &mut errors, MaintenanceStep::Vacuum, Err("locked".to_string()));
    assert_eq!(ops, vec!["Cleaned up old data".to_string()]);
    assert_eq!(errors, vec!["Vacuum failed: locked".to_string()]);
    assert_eq!(metrics_failure_message(true, "x"), "Failed to get initial metrics: x");
}

#[test]
fn storage_reports() {
    let a = analyze_query_performance("SELECT * FROM notes WHERE content LIKE '%x%'");
    assert_eq!(a.suggestions, vec!["LIKE queries starting with % may cause full table scans".to_string()]);
    assert_eq!(a.estimated_cost, 4);
    assert!(!a.uses_index);
    let b = analyze_query_performance("SELECT * FROM courses LIMIT 5");
    assert_eq!(b.estimated_cost, 3);
    assert_eq!(b.suggestions.len(), 2);
    assert_eq!(classify_health(0, 1), HealthStatus::Good);
    assert_eq!(classify_health(1, 5), HealthStatus::Fair);
    assert_eq!(classify_health(2, 0), HealthStatus::Poor);
    let findings = check_health(&HealthInputs {
        total_size_bytes: 200_000_000,
        high_fragmentation: true,
        high_pool_utilization: false,
        notes_count: 10,
        custom_index_count: 5,
    });
    assert_eq!(findings.recommendations.len(), 2);
    assert_eq!(findings.overall_health, HealthStatus::Fair);
    let p = maintenance_plan(10, 10, 10);
    assert_eq!(p.frequency_days, 30);
    assert_eq!(p.operations, vec!["Update statistics".to_string(), "Check integrity".to_string()]);
    let h = ConnectionPoolHealth::from_pool_state(4, 1, true);
    assert_eq!(h.active_connections, 3);
    assert_eq!(h.max_connections, 10);
}

#[test]
fn folder_scan_summary() {
    let files = vec![
        ScannedFile { path: "a.MP4".to_string(), extension: Some("MP4".to_string()), size: Some(10) },
        ScannedFile { path: "b.rm".to_string(), extension: Some("rm".to_string()), size: Some(5) },
        ScannedFile { path: "c.txt".to_string(), extension: Some("txt".to_string()), size: Some(1) },
        ScannedFile { path: "README".to_string(), extension: None, size: Some(100) },
    ];
    let v = summarize_folder_scan(true, true, &files);
    assert!(v.is_valid);
    assert_eq!(v.video_count, 1);
    assert_eq!(v.supported_files, vec!["a.MP4".to_string()]);
    assert_eq!(v.unsupported_files, vec!["b.rm".to_string()]);
    assert_eq!(v.total_size, 16);
    let missing = summarize_folder_scan(false, false, &files);
    assert_eq!(missing.error_message, Some("Folder does not exist".to_string()));
    assert!(missing.supported_files.is_empty() && missing.unsupported_files.is_empty());
    assert!(!missing.is_valid);
    assert_eq!(missing.total_size, 0);
    let file = summarize_folder_scan(true, false, &files);
    assert_eq!(file.error_message, Some("Path is not a directory".to_string()));
    assert!(file.supported_files.is_empty() && file.unsupported_files.is_empty());
    assert_eq!(file.video_count, 0);
    let empty = summarize_folder_scan(true, true, &Vec::new());
    assert_eq!(
        empty.error_message,
        Some("No supported video files found in the selected folder".to_string())
    );
}

#[test]
fn stored_note_reads_back() {
    let note = Note {
        id: Uuid { value: 0x1234_5678_9abc_def0_1234_5678_9abc_def0 },
        course_id: Uuid { value: 42 },
        video_id: Some(Uuid { value: 7 }),
        video_index: Some(3),
        content: "Ownership *matters*".to_string(),
        timestamp: Some(4_000_000_000),
        tags: vec!["rust".to_string(), "quote \" and \\ slash".to_string()],
        created_at: UtcDateTime { secs: NOW, nanos: 123_456_789 },
        updated_at: UtcDateTime { secs: NOW + 60, nanos: 0 },
    };
    let row = note_row(&note).unwrap();
    assert_eq!(row.timestamp, Some(4_000_000_000));
    let back = note_from_row(row.clone()).unwrap();
    assert_eq!(back, Note { video_index: None, ..note.clone() });
    let mut broken = row;
    broken.created_at = "yesterday".to_string();
    assert_eq!(note_from_row(broken), Err(NoteRowError::InvalidDateTime { column: 5 }));
    let far = Note { created_at: UtcDateTime { secs: i64::MAX, nanos: 0 }, ..note };
    assert!(note_row(&far).is_none());
}

#[test]
fn database_validation_report() {
    let ok = validation_report("ok", Vec::new(), vec!["w".to_string()], Vec::new());
    assert!(ok.is_valid);
    assert!(ok.issues.is_empty());
    assert_eq!(ok.warnings, vec!["w".to_string()]);
    let bad = validation_report(
        "page 3 broken",
        vec![foreign_key_violation("notes", "courses")],
        vec![missing_index_warning("notes", "video_id")],
        vec![missing_statistics_warning().to_string()],
    );
    assert!(!bad.is_valid);
    assert_eq!(
        bad.issues,
        vec![
            "Database integrity check failed: page 3 broken".to_string(),
            "Foreign key violation in table notes: courses".to_string(),
        ]
    );
    assert_eq!(bad.warnings[0], "Missing index on foreign key notes.video_id");
    assert_eq!(index_count_warning("plans", 2), None);
    assert_eq!(
        index_count_warning("plans", 1),
        Some("Table 'plans' has only 1 indexes - consider adding more for better performance".to_string())
    );
    assert_eq!(foreign_key_columns().len(), 3);
}

#[test]
fn activity_and_search_rows() {
    let id = uuid::Uuid::new_v4();
    let a = activity_from_row("plan", &id.to_string(), "Study Plan".to_string(), "2024-01-02T03:04:05Z", None)
        .unwrap();
    assert_eq!(a.activity_type, ActivityType::Plan);
    assert_eq!(a.id, Uuid { value: id.as_u128() });
    assert_eq!(a.created_at.secs, 1_704_164_645);
    let other = activity_from_row("lesson", &id.to_string(), "x".to_string(), "2024-01-02T03:04:05Z", None)
        .unwrap();
    assert_eq!(other.activity_type, ActivityType::Course);
    assert_eq!(
        activity_from_row("note", "nope", "x".to_string(), "2024-01-02T03:04:05Z", None),
        Err(BadColumn { column: 1 })
    );
    assert_eq!(
        search_result_from_row("note", &id.to_string(), "t".to_string(), "c".to_string(), "bad", None),
        Err(BadColumn { column: 4 })
    );
    assert_eq!(
        search_result_from_row(
            "note",
            &id.to_string(),
            "t".to_string(),
            "c".to_string(),
            "2024-01-02T03:04:05Z",
            Some("zzz".to_string())
        ),
        Err(BadColumn { column: 5 })
    );
    let hit = search_result_from_row("note", &id.to_string(), "t".to_string(), "c".to_string(), "2024-01-02T03:04:05Z", None)
        .unwrap();
    assert_eq!(hit.result_type, SearchResultType::Note);
}

#[test]
fn stored_video_reads_back() {
    let mut v = course_pilot::course::VideoMetadata::new_youtube(
        "Intro".to_string(),
        "abc123".to_string(),
        "https://www.youtube.com/watch?v=abc123".to_string(),
    );
    v.original_index = 7;
    v.view_count = Some(u64::MAX);
    v.upload_date = Some(at(NOW));
    v.tags = vec!["a".to_string(), "b, c".to_string()];
    v.duration_seconds = Some(course_pilot::ieee::DoublePrecision { bits: 42.5f64.to_bits() });
    let row = video_row(3, &v);
    assert_eq!(row.video_index, 3);
    assert_eq!(row.view_count, Some(-1));
    assert_eq!(row.is_local, 0);
    let back = video_from_row(row.clone());
    assert_eq!(back, v);
    let mut fractional = v.clone();
    fractional.upload_date = Some(UtcDateTime { secs: NOW, nanos: 5 });
    let read = video_from_row(video_row(0, &fractional));
    assert_eq!(read.upload_date, Some(at(NOW)));
    let mut odd = row;
    odd.tags = Some("not json".to_string());
    odd.is_local = 7;
    let read = video_from_row(odd);
    assert!(read.tags.is_empty());
    assert!(read.is_local);
}

#[test]
fn stored_sections_and_modules_read_back() {
    let s = course_pilot::course::Section {
        title: "Ownership".to_string(),
        video_index: 4,
        duration: Duration::from_secs(95),
    };
    let back = section_from_row(section_row(&s));
    assert_eq!(back, s);
    let partial = course_pilot::course::Section { duration: Duration::new(95, 500), ..s.clone() };
    assert_eq!(section_from_row(section_row(&partial)).duration, Duration::from_secs(95));
    let m = course_pilot::course::Module::new_basic("Basics".to_string(), vec![s.clone()]);
    let row = module_row(&m);
    assert_eq!(row.total_duration_secs, 95);
    let back = module_from_row(row, vec![s]);
    assert_eq!(back.title, "Basics");
    assert_eq!(back.total_duration, Duration::from_secs(95));
    assert_eq!(back.topic_keywords, m.topic_keywords);
}

#[test]
fn json_column_errors_name_the_decoder_message() {
    let decode = serde_json::from_str::<i32>("\"bad\"").err().unwrap();
    let err = course_pilot::storage_utils::json_column_error(7, &decode.to_string());
    assert_eq!(err.index, 7);
    assert!(err.expected.starts_with("json:"));
    assert_eq!(err.expected, format!("json: {decode}"));
    assert_eq!(err.column_type, course_pilot::storage_utils::ColumnType::Text);
}

#[test]
fn test_connection_manager() {
    let analysis = analyze_query_performance("SELECT * FROM courses");
    assert!(analysis.estimated_cost > 1);
    assert!(!analysis.suggestions.is_empty());
}

#[test]
fn duration_new_carries_whole_seconds() {
    let d = Duration::new(1, 2_500_000_000);
    assert_eq!(d.as_secs(), 3);
    assert_eq!(d.subsec_nanos(), 500_000_000);
}

fn no_filters<'a>() -> course_pilot::notes::NoteSearchFilters<'a> {
    course_pilot::notes::NoteSearchFilters {
        course_id: None,
        video_id: None,
        content: None,
        tags: None,
        timestamp_min: None,
        timestamp_max: None,
        created_after: None,
        created_before: None,
        updated_after: None,
        updated_before: None,
    }
}

#[test]
fn note_search_matches_any_listed_tag() {
    let select = "SELECT id, course_id, video_id, content, timestamp, created_at, updated_at, tags FROM notes WHERE 1=1";
    let tags: [&str; 2] = ["rust", "lang"];
    let q = search_notes_advanced_query(&course_pilot::notes::NoteSearchFilters {
        tags: Some(&tags),
        timestamp_min: Some(40),
        ..no_filters()
    });
    assert_eq!(
        q.sql,
        format!("{select} AND (tags LIKE ? OR tags LIKE ?)  AND timestamp >= ?  ORDER BY updated_at DESC")
    );
    assert_eq!(
        q.params,
        vec![
            SqlParam::Text("%rust%".to_string()),
            SqlParam::Text("%lang%".to_string()),
            SqlParam::Integer(40)
        ]
    );
    let one: [&str; 1] = ["rust"];
    let q = search_notes_advanced_query(&course_pilot::notes::NoteSearchFilters {
        tags: Some(&one),
        ..no_filters()
    });
    assert_eq!(q.sql, format!("{select} AND (tags LIKE ?)  ORDER BY updated_at DESC"));
    let none: [&str; 0] = [];
    let q = search_notes_advanced_query(&course_pilot::notes::NoteSearchFilters {
        tags: Some(&none),
        ..no_filters()
    });
    assert_eq!(q.sql, format!("{select} ORDER BY updated_at DESC"));
    assert!(q.params.is_empty());
}

#[test]
fn epoch_seconds_at_the_edges_of_the_calendar() {
    assert!(datetime_from_unix_seconds_at(8_210_266_876_799, 0).is_ok());
    assert!(datetime_from_unix_seconds_at(8_210_266_876_800, 0).is_err());
    assert!(datetime_from_unix_seconds_at(-8_334_601_228_800, 0).is_ok());
    assert!(datetime_from_unix_seconds_at(-8_334_601_228_801, 0).is_err());
    assert!(datetime_from_unix_seconds_at(i64::MAX, 0).is_err());
}

#[test]
fn legacy_videos_are_padded_to_the_titles() {
    let titles = vec!["One".to_string(), "Two".to_string(), "Three".to_string()];
    let stored = course_pilot::video_records::create_fallback_video_metadata(&titles[..1]);
    let loaded = course_pilot::video_records::choose_loaded_videos(Some(stored), &titles);
    assert_eq!(loaded.len(), 3);
    assert_eq!(loaded[2].title, "Three");
    let fallback = course_pilot::video_records::choose_loaded_videos(None, &titles);
    assert_eq!(fallback.len(), 3);
}
