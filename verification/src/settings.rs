//! Application settings and import preferences. Reading and writing the
//! settings file happens outside the library; here are the values, their
//! defaults and their accessors.
use vstd::prelude::*;
use crate::plan::PlanSettings;
use crate::time::{UtcDateTime, chrono_accepts_timestamp, utc_now};

verus! {

/// How imported courses are named.
#[derive(Clone, Debug, PartialEq)]
pub enum CourseNamingPattern {
    PlaylistTitle,
    PrefixPlusTitle,
    CustomPattern(String),
    DatePlusTitle,
}

/// Which video quality to prefer on import.
#[derive(Clone, Copy, Debug, PartialEq, Eq, Structural)]
pub enum VideoQualityPreference {
    Any,
    PreferHD,
    RequireHD,
    PreferSD,
}

/// Preferences applied when importing courses.
#[derive(Clone, Debug, PartialEq)]
pub struct ImportPreferences {
    pub default_course_prefix: Option<String>,
    pub use_playlist_title: bool,
    pub course_naming_pattern: CourseNamingPattern,
    pub skip_short_videos: bool,
    pub min_video_duration_seconds: u64,
    pub skip_long_videos: bool,
    pub max_video_duration_seconds: u64,
    pub quality_preference: VideoQualityPreference,
    pub auto_create_plan: bool,
    pub auto_structure_course: bool,
    pub preserve_playlist_order: bool,
    pub extract_timestamps: bool,
    pub download_thumbnails: bool,
    pub preview_probe_max_concurrency: usize,
    pub preview_cancellation_enabled: bool,
}

/// Settings kept between runs of the application.
#[derive(Clone, Debug, PartialEq)]
pub struct AppSettings {
    pub youtube_api_key: Option<String>,
    pub gemini_api_key: Option<String>,
    pub theme: Option<String>,
    pub auto_structure: bool,
    pub notifications_enabled: bool,
    pub default_plan_settings: PlanSettings,
    pub auto_create_plan: bool,
    pub analytics_enabled: bool,
    pub track_study_time: bool,
    pub import_preferences: ImportPreferences,
}

/// The default import preferences.
pub open spec fn is_default_import_preferences(p: ImportPreferences) -> bool {
    &&& p.default_course_prefix is None
    &&& p.use_playlist_title
    &&& p.course_naming_pattern == CourseNamingPattern::PlaylistTitle
    &&& !p.skip_short_videos
    &&& p.min_video_duration_seconds == 30
    &&& !p.skip_long_videos
    &&& p.max_video_duration_seconds == 3600
    &&& p.quality_preference == VideoQualityPreference::Any
    &&& !p.auto_create_plan
    &&& p.auto_structure_course
    &&& !p.preserve_playlist_order
    &&& p.extract_timestamps
    &&& p.download_thumbnails
    &&& p.preview_probe_max_concurrency == 8
    &&& p.preview_cancellation_enabled
}

/// The theme used when none is chosen.
pub open spec fn default_theme() -> Seq<char> {
    "corporate"@
}

impl Default for ImportPreferences {
    fn default() -> (p: ImportPreferences)
        ensures
            is_default_import_preferences(p),
    {
        ImportPreferences {
            default_course_prefix: None,
            use_playlist_title: true,
            course_naming_pattern: CourseNamingPattern::PlaylistTitle,
            skip_short_videos: false,
            min_video_duration_seconds: 30,
            skip_long_videos: false,
            max_video_duration_seconds: 3600,
            quality_preference: VideoQualityPreference::Any,
            auto_create_plan: false,
            auto_structure_course: true,
            preserve_playlist_order: false,
            extract_timestamps: true,
            download_thumbnails: true,
            preview_probe_max_concurrency: 8,
            preview_cancellation_enabled: true,
        }
    }
}

impl Default for AppSettings {
    /// No API keys, the "corporate" theme, structuring, notifications and
    /// analytics on, and plans of three sixty-minute weekday sessions a week
    /// starting a day from now.
    fn default() -> (s: AppSettings)
        ensures
            s.youtube_api_key is None,
            s.gemini_api_key is None,
            s.theme matches Some(t) && t@ == default_theme(),
            s.auto_structure,
            s.notifications_enabled,
            chrono_accepts_timestamp(
                (s.default_plan_settings.start_date.secs - 86_400) as i64,
                s.default_plan_settings.start_date.nanos,
            ),
            s.default_plan_settings.sessions_per_week == 3,
            s.default_plan_settings.session_length_minutes == 60,
            !s.default_plan_settings.include_weekends,
            s.default_plan_settings.advanced_settings is None,
            !s.auto_create_plan,
            s.analytics_enabled,
            s.track_study_time,
            is_default_import_preferences(s.import_preferences),
    {
        let now = utc_now();
        AppSettings {
            youtube_api_key: None,
            gemini_api_key: None,
            theme: Some(String::from_str("corporate")),
            auto_structure: true,
            notifications_enabled: true,
            default_plan_settings: PlanSettings {
                start_date: UtcDateTime { secs: now.secs + 86_400, nanos: now.nanos },
                sessions_per_week: 3,
                session_length_minutes: 60,
                include_weekends: false,
                advanced_settings: None,
            },
            auto_create_plan: false,
            analytics_enabled: true,
            track_study_time: true,
            import_preferences: ImportPreferences::default(),
        }
    }
}

impl AppSettings {
    /// Sets the YouTube API key (the caller persists the settings).
    pub fn set_youtube_api_key(&mut self, api_key: Option<String>)
        ensures
            *final(self) == (AppSettings { youtube_api_key: api_key, ..*old(self) }),
    {
        self.youtube_api_key = api_key;
    }

    /// The YouTube API key, if one is set.
    pub fn get_youtube_api_key(&self) -> (r: Option<&str>)
        ensures
            match self.youtube_api_key {
                Some(k) => r matches Some(v) && v@ == k@,
                None => r is None,
            },
    {
        match &self.youtube_api_key {
            Some(k) => Some(k.as_str()),
            None => None,
        }
    }

    /// Sets the Gemini API key (the caller persists the settings).
    pub fn set_gemini_api_key(&mut self, api_key: Option<String>)
        ensures
            *final(self) == (AppSettings { gemini_api_key: api_key, ..*old(self) }),
    {
        self.gemini_api_key = api_key;
    }

    /// The Gemini API key, if one is set.
    pub fn get_gemini_api_key(&self) -> (r: Option<&str>)
        ensures
            match self.gemini_api_key {
                Some(k) => r matches Some(v) && v@ == k@,
                None => r is None,
            },
    {
        match &self.gemini_api_key {
            Some(k) => Some(k.as_str()),
            None => None,
        }
    }

    /// Chooses a theme (the caller persists the settings).
    pub fn set_theme(&mut self, theme: String)
        ensures
            *final(self) == (AppSettings { theme: Some(theme), ..*old(self) }),
    {
        self.theme = Some(theme);
    }

    /// The chosen theme, or "corporate" where none is chosen.
    pub fn get_theme(&self) -> (r: &str)
        ensures
            r@ == theme_of(*self),
    {
        match &self.theme {
            Some(t) => t.as_str(),
            None => "corporate",
        }
    }

    /// Replaces the default plan settings (the caller persists the
    /// settings).
    pub fn set_default_plan_settings(&mut self, settings: PlanSettings)
        ensures
            *final(self) == (AppSettings { default_plan_settings: settings, ..*old(self) }),
    {
        self.default_plan_settings = settings;
    }

    /// The default plan settings.
    pub fn get_default_plan_settings(&self) -> (r: &PlanSettings)
        ensures
            *r == self.default_plan_settings,
    {
        &self.default_plan_settings
    }

    /// Replaces the import preferences (the caller persists the settings).
    pub fn set_import_preferences(&mut self, preferences: ImportPreferences)
        ensures
            *final(self) == (AppSettings { import_preferences: preferences, ..*old(self) }),
    {
        self.import_preferences = preferences;
    }

    /// The import preferences.
    pub fn get_import_preferences(&self) -> (r: &ImportPreferences)
        ensures
            *r == self.import_preferences,
    {
        &self.import_preferences
    }
}

/// The theme `get_theme` reports for settings.
pub open spec fn theme_of(s: AppSettings) -> Seq<char> {
    match s.theme {
        Some(t) => t@,
        None => default_theme(),
    }
}

/// Reading the theme after `set_theme` gives the theme that was set, and
/// setting a theme changes nothing else.
pub proof fn lemma_theme_set_then_get(s: AppSettings, theme: String)
    ensures
        theme_of(AppSettings { theme: Some(theme), ..s }) == theme@,
        (AppSettings { theme: Some(theme), ..s }).youtube_api_key == s.youtube_api_key,
        (AppSettings { theme: Some(theme), ..s }).import_preferences == s.import_preferences,
{
}

/// Reading an API key after setting it gives the key that was set.
pub proof fn lemma_api_keys_set_then_get(s: AppSettings, youtube: Option<String>, gemini: Option<
    String,
>)
    ensures
        (AppSettings { youtube_api_key: youtube, ..s }).youtube_api_key == youtube,
        (AppSettings { gemini_api_key: gemini, ..s }).gemini_api_key == gemini,
        (AppSettings { youtube_api_key: youtube, ..s }).gemini_api_key == s.gemini_api_key,
        (AppSettings { gemini_api_key: gemini, ..s }).youtube_api_key == s.youtube_api_key,
{
}

} // verus!
