use course_pilot::ui::{
    button_classes, button_disabled, button_icon_class, key_activates_button, shows_icon_only,
    ButtonSize, ButtonVariant, IconPosition,
};
use course_pilot::clustering::{feedback_comments, parse_feedback_type, FeedbackType};
use course_pilot::analytics_advice::{
    enabled_features, optimization_suggestions, pacing_recommendations, priority_border,
    progression_recommendations, session_load_counts, strategy_rationale, usage_order, PlanSignals,
};
use course_pilot::clustering::{
    parse_algorithm_choice, parse_experience_choice, rating_description, ClusteringAlgorithm,
    ClusteringStrategy,
};
use course_pilot::course::{Course, DifficultyLevel};
use course_pilot::course_forms::{
    import_feedback, import_start_message, is_course_form_valid, parse_import_source,
    ImportFeedback, ImportSource,
};
use course_pilot::ids::Uuid;
use course_pilot::plan::{AdvancedSchedulerSettings, DistributionStrategy};
use course_pilot::pomodoro::{PomodoroTimer, TickOutcome, TimerMode, TimerState};
use course_pilot::ui::{
    accordion_toggle, badge_class, default_course_filename, generate_breadcrumbs, generate_id,
    list_classes, modal_box_class, progress_badge, sanitize_filename, BaseListItem, IdCounter,
    Route,
};

#[test]
fn timer_counts_down_and_switches_after_work() {
    let mut t = PomodoroTimer::new();
    assert_eq!(t.clock_display(), "25:00");
    assert_eq!(t.tick(), TickOutcome::Idle);
    t.start_pause();
    assert_eq!(t.state(), TimerState::Running);
    assert_eq!(t.start_pause_label(), "Pause");
    for _ in 0..1499 {
        assert_eq!(t.tick(), TickOutcome::Counted);
    }
    assert_eq!(t.remaining_secs(), 1);
    assert_eq!(t.clock_display(), "00:01");
    assert_eq!(
        t.tick(),
        TickOutcome::Finished("Break Time completed! Starting Break Time".to_string())
    );
    assert_eq!(t.state(), TimerState::Stopped);
    assert_eq!(t.mode(), TimerMode::Break);
    assert_eq!(t.remaining_secs(), 300);
    assert_eq!(t.completed_pomodoros(), 1);
    assert_eq!(t.clock_display(), "05:00");
}

#[test]
fn timer_buttons() {
    let mut t = PomodoroTimer::new();
    t.start_pause();
    t.tick();
    t.tick();
    assert_eq!(t.clock_display(), "24:58");
    t.start_pause();
    assert_eq!(t.state(), TimerState::Paused);
    assert_eq!(t.start_pause_label(), "Start");
    assert_eq!(t.tick(), TickOutcome::Idle);
    t.reset();
    assert_eq!(t.state(), TimerState::Stopped);
    assert_eq!(t.remaining_secs(), 1500);
    t.switch_mode();
    assert_eq!(t.mode(), TimerMode::Break);
    t.switch_mode();
    assert_eq!(t.mode(), TimerMode::Work);
    assert_eq!(t.remaining_secs(), 1500);
    assert_eq!(t.completed_pomodoros(), 0);
    assert_eq!(TimerMode::Work.label(), "Focus Time");
    assert_eq!(TimerMode::Break.next(), TimerMode::Work);
    assert_eq!(TimerMode::Break.duration().as_secs(), 300);
}

#[test]
fn finished_break_does_not_count() {
    let mut t = PomodoroTimer::new();
    t.switch_mode();
    t.start_pause();
    for _ in 0..299 {
        t.tick();
    }
    assert_eq!(
        t.tick(),
        TickOutcome::Finished("Focus Time completed! Starting Focus Time".to_string())
    );
    assert_eq!(t.completed_pomodoros(), 0);
    assert_eq!(t.mode(), TimerMode::Work);
}

#[test]
fn course_form_validation() {
    assert!(is_course_form_valid(
        "Rust",
        ImportSource::YouTube,
        "https://www.youtube.com/playlist?list=1",
        false
    ));
    assert!(is_course_form_valid("Rust", ImportSource::YouTube, "https://youtu.be/x", false));
    assert!(!is_course_form_valid("Rust", ImportSource::YouTube, "https://vimeo.com/x", false));
    assert!(!is_course_form_valid("  ", ImportSource::YouTube, "https://youtu.be/x", false));
    assert!(!is_course_form_valid("Rust", ImportSource::YouTube, "   ", false));
    assert!(is_course_form_valid("Rust", ImportSource::LocalFolder, "", true));
    assert!(!is_course_form_valid("Rust", ImportSource::LocalFolder, "", false));
    assert_eq!(parse_import_source("youtube"), Some(ImportSource::YouTube));
    assert_eq!(parse_import_source("folder"), Some(ImportSource::LocalFolder));
    assert_eq!(parse_import_source("ftp"), None);
}

#[test]
fn import_feedback_messages() {
    assert_eq!(import_start_message("Rust"), "Starting import of 'Rust'");
    assert_eq!(
        import_feedback("Rust", Ok(0)),
        ImportFeedback::NothingFound {
            job_reason: "No valid content found".to_string(),
            error: "No videos found in the selected source".to_string(),
        }
    );
    assert_eq!(
        import_feedback("Rust", Ok(12)),
        ImportFeedback::Imported {
            job_message: "Successfully imported 12 videos".to_string(),
            success: "Successfully imported 'Rust' with 12 videos".to_string(),
        }
    );
    assert_eq!(
        import_feedback("Rust", Err("timeout".to_string())),
        ImportFeedback::Failed { message: "Import failed: timeout".to_string() }
    );
}

#[test]
fn progression_advice_order_and_praise() {
    assert_eq!(
        progression_recommendations(false, false, false, false),
        vec!["Great job! Your study patterns are well optimized".to_string()]
    );
    let advice = progression_recommendations(true, false, true, true);
    assert_eq!(advice.len(), 3);
    assert_eq!(advice[0], "Consider increasing session frequency to maintain momentum");
    assert_eq!(advice[1], "Consider utilizing weekends for additional study sessions");
    assert!(advice[2].starts_with("Review course structure quality"));
}

#[test]
fn optimization_suggestions_by_signal() {
    let none = optimization_suggestions(None);
    assert_eq!(none.len(), 2);
    assert_eq!(none[0].title, "Start with Structured Learning");
    assert_eq!(none[1].priority, "Medium");
    let signals = PlanSignals {
        slow_pace: true,
        fast_pace: true,
        uneven_load: true,
        irregular_intervals: false,
        weekends_unused: true,
    };
    let s = optimization_suggestions(Some(signals));
    let titles: Vec<&str> = s.iter().map(|x| x.title.as_str()).collect();
    assert_eq!(titles, vec!["Increase Study Frequency", "Improve Load Balance", "Utilize Weekends"]);
    assert_eq!(priority_border("High"), "border-l-error");
    assert_eq!(priority_border("Low"), "border-l-info");
    assert_eq!(priority_border("Other"), "border-l-primary");
}

#[test]
fn strategy_rationale_and_features() {
    assert!(strategy_rationale(DistributionStrategy::Adaptive, Some((51, false))).starts_with("Large course"));
    assert!(strategy_rationale(DistributionStrategy::Adaptive, Some((50, false))).starts_with("Strategy selected"));
    assert!(strategy_rationale(DistributionStrategy::ModuleBased, Some((5, true))).starts_with("Well-structured"));
    assert!(strategy_rationale(DistributionStrategy::Hybrid, None).starts_with("General strategy"));
    let features = enabled_features(&AdvancedSchedulerSettings::for_beginner());
    assert_eq!(features[0], "Spaced Repetition");
    let defaults = enabled_features(&AdvancedSchedulerSettings::default());
    assert_eq!(defaults, vec!["Load Balancing".to_string(), "Adaptive Pacing".to_string(), "Difficulty Adaptation".to_string()]);
    let pacing = pacing_recommendations(DifficultyLevel::Expert);
    assert_eq!(pacing[0].title, "Efficient Mastery");
    assert_eq!(pacing[1].title, "Self-Directed Learning");
}

#[test]
fn clustering_labels_and_choices() {
    assert_eq!(ClusteringAlgorithm::TfIdf.chart_label(), "TF-IDF");
    assert_eq!(ClusteringStrategy::ContentBased.chart_label(), "Content-Based");
    assert_eq!(parse_algorithm_choice("KMeans"), ClusteringAlgorithm::KMeans);
    assert_eq!(parse_algorithm_choice("whatever"), ClusteringAlgorithm::Hybrid);
    assert_eq!(parse_experience_choice("Expert"), DifficultyLevel::Expert);
    assert_eq!(parse_experience_choice(""), DifficultyLevel::Intermediate);
    assert_eq!(rating_description(4), "Good - Most groups made sense with minor issues");
    assert_eq!(rating_description(0), "Please rate your experience");
}

#[test]
fn element_ids_are_numbered_from_one() {
    let mut counter = IdCounter::new();
    assert_eq!(generate_id("dialog", &mut counter), "dialog-1");
    assert_eq!(generate_id("dialog", &mut counter), "dialog-2");
    assert_eq!(generate_id("menu", &mut counter), "menu-3");
}

#[test]
fn export_file_names() {
    assert_eq!(sanitize_filename("  My Course: Part 1!  "), "my_course_part_1");
    assert_eq!(sanitize_filename("???"), "course-notes");
    assert_eq!(default_course_filename(Some("Rust 101")), "rust_101.md");
    assert_eq!(default_course_filename(None), "course-notes.md");
    for name in ["  Mixed CASE and spaces ", "é-accents_ok", "", "a  b"] {
        let once = sanitize_filename(name);
        assert_eq!(sanitize_filename(&once), once);
    }
}

#[test]
fn component_classes() {
    assert_eq!(badge_class(Some("success"), Some("badge-lg")), "badge badge-success badge-lg");
    assert_eq!(badge_class(None, None), "badge badge-primary ");
    assert_eq!(list_classes("grid", "x", None), "grid grid-cols-1 md:grid-cols-2 lg:grid-cols-3 gap-4 x");
    assert_eq!(list_classes("menu", "x", None), "menu w-full x");
    assert_eq!(list_classes("list", "", None), "space-y-2 ");
    assert_eq!(list_classes("steps", "y", None), "steps y");
    assert_eq!(modal_box_class("modal-box", "wide"), "modal-box bg-base-100 shadow-xl relative wide");
    assert_eq!(accordion_toggle(None, 2), Some(2));
    assert_eq!(accordion_toggle(Some(2), 2), None);
    assert_eq!(accordion_toggle(Some(1), 2), Some(2));
    assert_eq!(progress_badge(100), ("Completed", "success"));
    assert_eq!(progress_badge(40), ("In Progress", "accent"));
    assert_eq!(progress_badge(0), ("Not Started", "base-300"));
    let item = BaseListItem::new("a".to_string(), 5u32).disabled();
    assert!(item.disabled);
    assert_eq!(item.data, 5);
}

#[test]
fn breadcrumbs_name_the_course() {
    let id = uuid::Uuid::new_v4();
    let mut course = Course::new("Rust".to_string(), vec!["Intro".to_string()]);
    course.id = Uuid { value: id.as_u128() };
    let crumbs = generate_breadcrumbs(Route::PlanView { course_id: id.to_string() }, &[course]);
    assert_eq!(crumbs.len(), 2);
    assert_eq!(crumbs[0].label, "Dashboard");
    assert_eq!(crumbs[0].route, Some(Route::Dashboard));
    assert_eq!(crumbs[1].label, "Rust");
    assert!(crumbs[1].active);
    let unknown = generate_breadcrumbs(Route::PlanView { course_id: uuid::Uuid::new_v4().to_string() }, &[]);
    assert_eq!(unknown[1].label, "Unknown Course");
    let invalid = generate_breadcrumbs(Route::PlanView { course_id: "nope".to_string() }, &[]);
    assert_eq!(invalid.len(), 1);
    assert_eq!(invalid[0].label, "Invalid Course");
    let settings = generate_breadcrumbs(Route::Settings, &[]);
    assert_eq!(settings[1].label, "Settings");
    assert_eq!(generate_breadcrumbs(Route::Home, &[])[0].label, "Home");
}

#[test]
fn usage_order_sorts_by_count_then_position() {
    assert_eq!(usage_order(&[2, 5, 2, 7]), vec![3, 1, 0, 2]);
    assert_eq!(usage_order(&[]), Vec::<usize>::new());
    assert_eq!(usage_order(&[1, 1, 1]), vec![0, 1, 2]);
}

#[test]
fn session_loads_are_summed() {
    assert_eq!(session_load_counts(&[(2, 1), (3, 0), (0, 4)]), (5, 0, 5));
    assert_eq!(session_load_counts(&[]), (0, 0, 0));
}

#[test]
fn button_classes_follow_the_flags() {
    assert_eq!(
        button_classes(ButtonVariant::Primary, ButtonSize::Medium, false, false, false, None),
        "button button--primary button--md"
    );
    assert_eq!(
        button_classes(ButtonVariant::Transparent, ButtonSize::Small, true, true, true, Some("mt-2")),
        "button button--ghost button--sm button--full-width button--loading button--icon-only mt-2"
    );
    assert!(button_disabled(false, true));
    assert!(button_disabled(true, false));
    assert!(!button_disabled(false, false));
    assert!(key_activates_button("Enter", false));
    assert!(key_activates_button(" ", false));
    assert!(!key_activates_button("Enter", true));
    assert!(!key_activates_button("a", false));
    assert!(shows_icon_only(true, IconPosition::Only));
    assert!(!shows_icon_only(false, IconPosition::Only));
    assert!(!shows_icon_only(true, IconPosition::Left));
    assert_eq!(button_icon_class(IconPosition::Right), "button__icon button__icon--right");
}

#[test]
fn feedback_form_values() {
    assert_eq!(parse_feedback_type("Rejection"), FeedbackType::Rejection);
    assert_eq!(parse_feedback_type("ParameterChange"), FeedbackType::ParameterChange);
    assert_eq!(parse_feedback_type("bogus"), FeedbackType::ExplicitRating);
    for t in [
        FeedbackType::ExplicitRating,
        FeedbackType::ManualAdjustment,
        FeedbackType::ParameterChange,
        FeedbackType::ImplicitAcceptance,
        FeedbackType::Rejection,
    ] {
        assert_eq!(parse_feedback_type(t.menu_value()), t);
    }
    assert_eq!(FeedbackType::ImplicitAcceptance.menu_label(), "Accepted As-Is");
    assert_eq!(feedback_comments("  \n".to_string()), None);
    assert_eq!(feedback_comments(" ok ".to_string()), Some(" ok ".to_string()));
}

#[test]
fn ids_differ_across_prefixes() {
    let mut counter = IdCounter::new();
    let a = generate_id("modal", &mut counter);
    let b = generate_id("modal-1", &mut counter);
    assert_eq!(a, "modal-1");
    assert_eq!(b, "modal-1-2");
    assert_ne!(a, b);
}

#[test]
fn ids_from_one_counter_never_repeat() {
    let mut counter = IdCounter::new();
    let prefixes = ["a", "a-1", "b", "a-12", "x-1-1"];
    let mut seen: Vec<String> = Vec::new();
    for k in 0..200 {
        let id = generate_id(prefixes[k % prefixes.len()], &mut counter);
        assert!(id.ends_with(&format!("-{}", k + 1)));
        assert!(!seen.contains(&id));
        seen.push(id);
    }
}

#[test]
fn longest_gap_is_the_maximum() {
    assert_eq!(course_pilot::analytics_advice::longest_gap_days(&[]), 0);
    assert_eq!(course_pilot::analytics_advice::longest_gap_days(&[3, 9, -2, 9, 4]), 9);
    assert_eq!(course_pilot::analytics_advice::longest_gap_days(&[-5, -3]), -3);
}

#[test]
fn uuid_text_is_hyphenated_lower_hex() {
    let u = Uuid { value: 0x0123_4567_89ab_cdef_0123_4567_89ab_cdef };
    assert_eq!(u.hyphenated_text(), "01234567-89ab-cdef-0123-456789abcdef");
}
