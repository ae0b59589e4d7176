use course_pilot::course::Note;
use course_pilot::ids::Uuid;
use course_pilot::migration_plan::{
    pending_migrations, rollback_plan, RollbackStep, CURRENT_SCHEMA_VERSION,
};
use course_pilot::notes::{
    export_notes_markdown_by_course, export_notes_markdown_by_video, render_note_html,
};
use course_pilot::settings::AppSettings;
use course_pilot::storage_utils::{
    datetime_from_unix_seconds_at, parse_datetime_rfc3339_sqlite, parse_optional_uuid_sqlite,
    parse_uuid_sqlite, ColumnType,
};
use course_pilot::time::UtcDateTime;
use course_pilot::ui::{
    ButtonSize, ButtonType, ButtonVariant, CardInteraction, CardSize, CardVariant,
};

fn fresh_uuid() -> (Uuid, String) {
    let u = uuid::Uuid::new_v4();
    (Uuid { value: u.as_u128() }, u.to_string())
}

fn sample_note(course_id: Uuid, video_id: Option<Uuid>) -> Note {
    let now = chrono::Utc::now();
    let now = UtcDateTime { secs: now.timestamp(), nanos: now.timestamp_subsec_nanos() };
    Note {
        id: fresh_uuid().0,
        course_id,
        video_id,
        video_index: None,
        content: "This is a **test** note.".to_string(),
        timestamp: Some(42),
        tags: vec!["rust".to_string(), "sqlite".to_string()],
        created_at: now,
        updated_at: now,
    }
}

#[test]
fn test_settings_creation() {
    let settings = AppSettings::default();
    assert!(settings.youtube_api_key.is_none());
    assert_eq!(settings.get_theme(), "corporate");
}

#[test]
fn test_button_size_classes() {
    assert_eq!(ButtonSize::Small.as_class(), "button--sm");
    assert_eq!(ButtonSize::Medium.as_class(), "button--md");
    assert_eq!(ButtonSize::Large.as_class(), "button--lg");
}

#[test]
fn test_button_variant_classes() {
    assert_eq!(ButtonVariant::Primary.as_class(), "button--primary");
    assert_eq!(ButtonVariant::Secondary.as_class(), "button--secondary");
    assert_eq!(ButtonVariant::Outline.as_class(), "button--outline");
    assert_eq!(ButtonVariant::Transparent.as_class(), "button--ghost");
    assert_eq!(ButtonVariant::Destructive.as_class(), "button--destructive");
}

#[test]
fn test_button_type_strings() {
    assert_eq!(ButtonType::Button.as_str(), "button");
    assert_eq!(ButtonType::Submit.as_str(), "submit");
    assert_eq!(ButtonType::Reset.as_str(), "reset");
}

#[test]
fn test_defaults() {
    assert_eq!(ButtonSize::default(), ButtonSize::Medium);
    assert_eq!(ButtonVariant::default(), ButtonVariant::Primary);
    assert_eq!(ButtonType::default(), ButtonType::Button);
}

#[test]
fn test_card_variant_classes() {
    assert_eq!(CardVariant::Elevated.as_class(), "card--elevated");
    assert_eq!(CardVariant::Outlined.as_class(), "card--outlined");
    assert_eq!(CardVariant::Filled.as_class(), "card--filled");
}

#[test]
fn test_card_size_classes() {
    assert_eq!(CardSize::Small.as_class(), "card--sm");
    assert_eq!(CardSize::Medium.as_class(), "card--md");
    assert_eq!(CardSize::Large.as_class(), "card--lg");
}

#[test]
fn mod_test_defaults() {
    assert_eq!(CardVariant::default(), CardVariant::Elevated);
    assert_eq!(CardSize::default(), CardSize::Medium);
    assert_eq!(CardInteraction::default(), CardInteraction::Static);
}

#[test]
fn test_parse_uuid_ok() {
    let (u, text) = fresh_uuid();
    let parsed = parse_uuid_sqlite(&text, 2).unwrap();
    assert_eq!(parsed, u);
}

#[test]
fn test_parse_uuid_err() {
    let err = parse_uuid_sqlite("not-a-uuid", 5).err().unwrap();
    assert_eq!(err.index, 5);
    assert_eq!(err.expected, "uuid");
    assert_eq!(err.column_type, ColumnType::Text);
}

#[test]
fn test_parse_optional_uuid() {
    let (u, text) = fresh_uuid();
    assert_eq!(parse_optional_uuid_sqlite(Some(text), 1).unwrap(), Some(u));
    assert_eq!(parse_optional_uuid_sqlite(None, 1).unwrap(), None);
}

#[test]
fn test_parse_rfc3339_datetime_ok() {
    let dt = parse_datetime_rfc3339_sqlite("2024-01-02T03:04:05Z", 0).unwrap();
    assert_eq!(dt.timestamp(), 1704164645);
}

#[test]
fn test_parse_rfc3339_datetime_err() {
    let err = parse_datetime_rfc3339_sqlite("02-01-2024 03:04:05", 4).err().unwrap();
    assert_eq!(err.index, 4);
    assert_eq!(err.column_type, ColumnType::Text);
}

#[test]
fn test_datetime_from_unix_seconds() {
    let dt = datetime_from_unix_seconds_at(1_704_164_645, 2).unwrap();
    assert_eq!(dt.timestamp(), 1_704_164_645);
}

#[test]
fn test_export_notes_markdown_by_course() {
    let course_id = fresh_uuid().0;
    let note1 = sample_note(course_id, Some(fresh_uuid().0));
    let note2 = sample_note(course_id, None);
    let md = export_notes_markdown_by_course(&[note1, note2]);
    assert!(md.contains("Course Note"));
    assert!(md.contains("Video Note"));
}

#[test]
fn test_export_notes_markdown_by_video() {
    let course_id = fresh_uuid().0;
    let note = sample_note(course_id, Some(fresh_uuid().0));
    let md = export_notes_markdown_by_video(&[note]);
    assert!(md.contains("Video Note"));
}

#[test]
fn test_render_note_html() {
    let note = Note {
        content: "# Title\nSome *markdown*.".to_string(),
        ..sample_note(fresh_uuid().0, None)
    };
    let html = render_note_html(&note);
    assert!(html.contains("<h1>Title</h1>"));
    assert!(html.contains("<em>markdown</em>"));
}

#[test]
fn test_migration_manager() {
    let pending = pending_migrations(0);
    assert_eq!(pending.len(), CURRENT_SCHEMA_VERSION as usize);
    assert_eq!(*pending.last().unwrap(), CURRENT_SCHEMA_VERSION);
    assert!(pending_migrations(CURRENT_SCHEMA_VERSION).is_empty());
}

#[test]
fn test_rollback() {
    let mut version = CURRENT_SCHEMA_VERSION;
    for step in rollback_plan(CURRENT_SCHEMA_VERSION, 2) {
        match step {
            RollbackStep::Undo(v) => {
                assert_eq!(v, version);
                version -= 1;
            }
            RollbackStep::Refuse(m) => panic!("{}", m),
        }
    }
    assert_eq!(version, 2);
}
