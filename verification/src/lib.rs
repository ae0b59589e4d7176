//! Course planning core: course and plan models, duration formatting,
//! notes storage rows, search queries and export, settings, the focus
//! timer, the dashboard and session overviews, import progress, and the
//! decisions behind the storage and interface layers.
pub mod text;
pub mod time;
pub mod ids;
pub mod duration;
pub mod ieee;
pub mod clustering;
pub mod course;
pub mod plan;
pub mod duration_utils;
pub mod video_records;
pub mod settings;
pub mod ui;
pub mod storage_utils;
pub mod notes;
pub mod storage_reports;
pub mod preferences;
pub mod folders;
pub mod migration_plan;
pub mod pomodoro;
pub mod dashboard;
pub mod sessions_view;
pub mod course_forms;
pub mod analytics_advice;
pub mod import_job;
pub mod db_policy;
pub mod course_rows;
