//! Clustering preferences, user feedback and A/B test records, and the
//! preference learning engine of builds without advanced text analysis.
use vstd::prelude::*;
use crate::ids::Uuid;
use crate::ieee::SinglePrecision;
use crate::time::UtcDateTime;

verus! {

/// Clustering preferences; builds without advanced text analysis keep none.
#[derive(Clone, Copy, Debug, Default, PartialEq, Eq, Structural)]
pub struct ClusteringPreferences {}

/// The arms of an A/B test.
#[derive(Clone, Copy, Debug, PartialEq, Eq, Structural)]
pub enum ABTestVariant {
    A,
    B,
}

/// An A/B test definition.
#[derive(Clone, Debug, PartialEq)]
pub struct ABTestConfig {
    pub id: Uuid,
    pub name: String,
    pub description: Option<String>,
    pub created_at: Option<UtcDateTime>,
    pub sample_size: Option<i64>,
    pub is_active: Option<bool>,
}

/// Feedback on a clustering result.
#[derive(Clone, Debug, PartialEq)]
pub struct ClusteringFeedback {
    pub id: Uuid,
    pub course_id: Uuid,
    pub clustering_parameters: ClusteringPreferences,
    pub feedback_type: String,
    pub rating: SinglePrecision,
    pub comments: Option<String>,
    pub manual_adjustments: Vec<String>,
    pub created_at: UtcDateTime,
}

/// One observation of an A/B test.
#[derive(Clone, Debug, PartialEq)]
pub struct ABTestResult {
    pub test_id: Uuid,
    pub course_id: Uuid,
    pub variant: ABTestVariant,
    pub parameters_used: ClusteringPreferences,
    pub user_satisfaction: SinglePrecision,
    pub processing_time_ms: u64,
    pub quality_score: SinglePrecision,
    pub user_made_adjustments: bool,
    pub adjustment_count: usize,
    pub created_at: UtcDateTime,
}

/// The preference learning engine; without advanced text analysis it has
/// no state and learns nothing.
#[derive(Clone, Copy, Debug, PartialEq, Eq, Structural)]
pub struct PreferenceLearningEngine {}

impl PreferenceLearningEngine {
    /// An engine starting from stored preferences.
    pub fn with_preferences(_p: ClusteringPreferences) -> (e: PreferenceLearningEngine)
        ensures
            e == (PreferenceLearningEngine {}),
    {
        PreferenceLearningEngine {}
    }

    /// Takes feedback into account; this engine accepts any feedback and
    /// stays as it is.
    pub fn update_preferences_from_feedback(&mut self, _feedback: ClusteringFeedback) -> (r:
        Result<(), String>)
        ensures
            r is Ok,
            *final(self) == *old(self),
    {
        Ok(())
    }
}

} // verus!
