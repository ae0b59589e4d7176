use course_pilot::course::{DifficultyLevel, Section};
use course_pilot::duration::Duration;
use course_pilot::duration_utils::{
    format_duration, format_duration_verbose, is_duration_excessive, validate_session_duration,
};
use course_pilot::ids::Uuid;
use course_pilot::migration_plan::{
    migration_name, pending_migrations, rollback_plan, supports_rollback, RollbackStep,
};
use course_pilot::plan::{
    adopt_regenerated_plan, preserve_plan_progress, AdvancedSchedulerSettings, CourseLength, DistributionStrategy, Plan,
    PlanItem, PlanSettings, PlanViewState,
};
use course_pilot::time::UtcDateTime;

fn settings(minutes: u32) -> PlanSettings {
    PlanSettings {
        start_date: UtcDateTime { secs: 1_700_000_000, nanos: 0 },
        sessions_per_week: 3,
        session_length_minutes: minutes,
        include_weekends: false,
        advanced_settings: None,
    }
}

fn item(videos: Vec<usize>, completed: bool, secs: i64) -> PlanItem {
    PlanItem {
        date: UtcDateTime { secs, nanos: 0 },
        module_title: "Module".to_string(),
        section_title: "Section".to_string(),
        video_indices: videos,
        completed,
        total_duration: Duration::from_secs(600),
        estimated_completion_time: Duration::from_secs(660),
        overflow_warnings: Vec::new(),
    }
}

fn plan_with(items: Vec<PlanItem>) -> Plan {
    let mut p = Plan::new(Uuid { value: 7 }, settings(60));
    p.items = items;
    p
}

#[test]
fn format_duration_renders_each_shape() {
    assert_eq!(format_duration(Duration::from_secs(3900)), "1h 5m");
    assert_eq!(format_duration(Duration::from_secs(7200)), "2h");
    assert_eq!(format_duration(Duration::from_secs(300)), "5m");
    assert_eq!(format_duration(Duration::from_secs(45)), "45s");
    assert_eq!(format_duration(Duration::from_secs(0)), "0s");
    assert_eq!(format_duration(Duration::new(59, 999_999_999)), "59s");
}

#[test]
fn format_duration_verbose_renders_each_shape() {
    assert_eq!(format_duration_verbose(Duration::from_secs(3900)), "1 hours 5 minutes");
    assert_eq!(format_duration_verbose(Duration::from_secs(3600)), "1 hours");
    assert_eq!(format_duration_verbose(Duration::from_secs(120)), "2 minutes");
    assert_eq!(format_duration_verbose(Duration::from_secs(59)), "59 seconds");
}

#[test]
fn excessive_duration_is_strictly_longer_than_the_limit() {
    assert!(!is_duration_excessive(Duration::from_secs(3600), 60));
    assert!(is_duration_excessive(Duration::new(3600, 1), 60));
    assert!(is_duration_excessive(Duration::from_secs(61), 1));
}

#[test]
fn session_validation_lists_overflow_then_long_videos() {
    let a = Section { title: "Intro".to_string(), video_index: 0, duration: Duration::from_secs(1200) };
    let b = Section { title: "Deep dive".to_string(), video_index: 1, duration: Duration::from_secs(2000) };
    let warnings = validate_session_duration(&[&a, &b], &settings(30));
    assert_eq!(
        warnings,
        vec![
            "Session duration (53m) exceeds target (30m)".to_string(),
            "Video 'Intro' is very long (20m) for session length".to_string(),
            "Video 'Deep dive' is very long (33m) for session length".to_string(),
        ]
    );
    let fine = validate_session_duration(&[&a], &settings(60));
    assert!(fine.is_empty());
}

#[test]
fn scheduler_settings_validation_reports_first_problem() {
    let mut s = AdvancedSchedulerSettings::default();
    assert!(s.validate().is_ok());
    s.spaced_repetition_enabled = true;
    assert_eq!(
        s.validate(),
        Err("Spaced repetition enabled but strategy is not SpacedRepetition".to_string())
    );
    let mut s = AdvancedSchedulerSettings::default();
    s.max_session_duration_minutes = Some(10);
    assert_eq!(s.validate(), Err("Session duration must be between 15 and 300 minutes".to_string()));
    let mut s = AdvancedSchedulerSettings::default();
    s.min_break_between_sessions_hours = Some(200);
    assert_eq!(s.validate(), Err("Minimum break between sessions cannot exceed 1 week".to_string()));
    let mut s = AdvancedSchedulerSettings::default();
    s.custom_intervals = Some(vec![]);
    assert_eq!(s.validate(), Err("Custom intervals cannot be empty".to_string()));
    s.custom_intervals = Some(vec![1, 0, 3]);
    assert_eq!(s.validate(), Err("All custom intervals must be positive".to_string()));
}

#[test]
fn recommendations_follow_learner_and_course() {
    let s = AdvancedSchedulerSettings::recommend_for_course(
        DifficultyLevel::Beginner,
        DifficultyLevel::Expert,
        CourseLength::Long,
    );
    assert_eq!(s.strategy, DistributionStrategy::SpacedRepetition);
    assert!(s.spaced_repetition_enabled);
    assert_eq!(s.max_session_duration_minutes, Some(90));
    let s = AdvancedSchedulerSettings::recommend_for_course(
        DifficultyLevel::Intermediate,
        DifficultyLevel::Advanced,
        CourseLength::Short,
    );
    assert_eq!(s.strategy, DistributionStrategy::Adaptive);
    assert_eq!(s.max_session_duration_minutes, Some(45));
    let s = AdvancedSchedulerSettings::recommend_for_course(
        DifficultyLevel::Expert,
        DifficultyLevel::Beginner,
        CourseLength::Standard,
    );
    assert_eq!(s.strategy, DistributionStrategy::Hybrid);
    assert!(s.prioritize_difficult_content);
    assert_eq!(s.max_session_duration_minutes, Some(60));
    assert!(s.validate().is_ok());
}

#[test]
fn strategy_and_level_names() {
    assert_eq!(DistributionStrategy::all().len(), 6);
    assert_eq!(DistributionStrategy::SpacedRepetition.display_name(), "Spaced Repetition");
    assert_eq!(DifficultyLevel::all().len(), 4);
    assert_eq!(DifficultyLevel::Expert.display_name(), "Expert");
}

#[test]
fn plan_progress_counts_and_updates() {
    let mut plan = plan_with(vec![item(vec![0], true, 1), item(vec![1], false, 2), item(vec![2], false, 3)]);
    assert_eq!(plan.total_sessions(), 3);
    assert_eq!(plan.completed_sessions(), 1);
    assert_eq!(plan.calculate_progress(), (1, 3));
    assert!(plan.update_item_completion(1, true).is_ok());
    assert_eq!(plan.completed_sessions(), 2);
    assert_eq!(
        plan.update_item_completion(5, true),
        Err("Plan item index 5 out of bounds".to_string())
    );
    assert_eq!(plan.estimated_time_remaining(), Some(Duration::from_secs(3600)));
    let id = plan.get_item_identifier(2);
    assert_eq!(id.item_index, 2);
    assert_eq!(id.plan_id, plan.id);
}

#[test]
fn regenerated_plan_keeps_completion_of_matching_sessions() {
    let existing = plan_with(vec![item(vec![0, 1], true, 1), item(vec![2], false, 2), item(vec![2], true, 3)]);
    let mut fresh = plan_with(vec![item(vec![0, 1], false, 10), item(vec![2], false, 11), item(vec![3], true, 12)]);
    preserve_plan_progress(&existing, &mut fresh);
    assert!(fresh.items[0].completed);
    assert!(fresh.items[1].completed, "the last matching session decides");
    assert!(fresh.items[2].completed, "sessions without a match keep their state");
    let snapshot = fresh.clone();
    preserve_plan_progress(&existing, &mut fresh);
    assert_eq!(fresh, snapshot);
}

#[test]
fn plan_view_toggles_are_involutions() {
    let mut view = PlanViewState::new();
    view.toggle_session(3);
    assert!(view.is_session_expanded(3));
    assert_eq!(view.expanded_session_count(), 1);
    view.toggle_session(3);
    assert!(!view.is_session_expanded(3));
    view.toggle_video_selection(1);
    view.toggle_video_selection(2);
    assert_eq!(view.selected_video_count(), 2);
    view.clear_selections();
    assert_eq!(view.selected_video_count(), 0);
    assert_eq!(view.expanded_session_count(), 0);
}

#[test]
fn regenerated_plan_keeps_id_and_progress() {
    let existing = plan_with(vec![item(vec![4], true, 1)]);
    let fresh = plan_with(vec![item(vec![4], false, 20), item(vec![5], false, 21)]);
    let adopted = adopt_regenerated_plan(&existing, fresh.clone());
    assert_eq!(adopted.id, existing.id);
    assert_eq!(adopted.course_id, fresh.course_id);
    assert!(adopted.items[0].completed);
    assert!(!adopted.items[1].completed);
}

#[test]
fn marking_a_session_moves_the_count_by_one() {
    let mut plan = plan_with(vec![item(vec![0], false, 1), item(vec![1], true, 2)]);
    let before = plan.completed_sessions();
    plan.update_item_completion(0, true).unwrap();
    assert_eq!(plan.completed_sessions(), before + 1);
    plan.update_item_completion(1, false).unwrap();
    assert_eq!(plan.completed_sessions(), before);
    plan.update_item_completion(1, false).unwrap();
    assert_eq!(plan.completed_sessions(), before);
}

#[test]
fn migrations_climb_to_the_current_version() {
    assert_eq!(pending_migrations(2), vec![3, 4]);
    assert_eq!(pending_migrations(-5), vec![1, 2, 3, 4]);
    assert!(pending_migrations(4).is_empty());
    assert_eq!(migration_name(4), Some("video_progress_tracking"));
    assert!(!supports_rollback(2));
}

#[test]
fn rollback_refusals() {
    assert_eq!(
        rollback_plan(2, 2),
        vec![RollbackStep::Refuse("Cannot rollback to version 2 from version 2".to_string())]
    );
    assert_eq!(
        rollback_plan(4, 0),
        vec![
            RollbackStep::Undo(4),
            RollbackStep::Undo(3),
            RollbackStep::Refuse("Migration version 2 does not support rollback".to_string()),
        ]
    );
}
