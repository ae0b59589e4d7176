//! Records describing how a course structure was clustered. Scores are
//! stored and handed back unchanged; see `crate::ieee`.
use vstd::prelude::*;
use crate::ieee::SinglePrecision;
use crate::course::{DifficultyLevel, str_equal};
use crate::text::{is_blank, is_blank_str};

verus! {

/// Clustering algorithms.
#[derive(Clone, Copy, Debug, PartialEq, Eq, Hash, Structural)]
pub enum ClusteringAlgorithm {
    TfIdf,
    KMeans,
    Hierarchical,
    Lda,
    Hybrid,
    Fallback,
}

/// Clustering strategies.
#[derive(Clone, Copy, Debug, PartialEq, Eq, Hash, Structural)]
pub enum ClusteringStrategy {
    ContentBased,
    DurationBased,
    Hierarchical,
    Lda,
    Hybrid,
    Fallback,
}

/// A topic found by clustering.
#[derive(Clone, Debug, PartialEq)]
pub struct TopicInfo {
    pub keyword: String,
    pub relevance_score: SinglePrecision,
    pub video_count: usize,
}

/// Confidence of one module's grouping.
#[derive(Clone, Debug, PartialEq)]
pub struct ModuleConfidence {
    pub module_index: usize,
    pub confidence_score: SinglePrecision,
    pub similarity_strength: SinglePrecision,
    pub topic_coherence: SinglePrecision,
    pub duration_balance: SinglePrecision,
}

/// Confidence scores of a clustering result.
#[derive(Clone, Debug, PartialEq)]
pub struct ClusteringConfidenceScores {
    pub overall_confidence: SinglePrecision,
    pub module_grouping_confidence: SinglePrecision,
    pub similarity_confidence: SinglePrecision,
    pub topic_extraction_confidence: SinglePrecision,
    pub module_confidences: Vec<ModuleConfidence>,
}

/// Why one module was grouped as it was.
#[derive(Clone, Debug, PartialEq)]
pub struct ModuleRationale {
    pub module_index: usize,
    pub module_title: String,
    pub grouping_reason: String,
    pub similarity_explanation: String,
    pub topic_keywords: Vec<String>,
    pub video_count: usize,
}

/// Why the clustering came out as it did.
#[derive(Clone, Debug, PartialEq)]
pub struct ClusteringRationale {
    pub primary_strategy: String,
    pub explanation: String,
    pub key_factors: Vec<String>,
    pub alternatives_considered: Vec<String>,
    pub module_rationales: Vec<ModuleRationale>,
}

/// Size measures of the clustered input.
#[derive(Clone, Debug, PartialEq, Default)]
pub struct InputMetrics {
    pub video_count: usize,
    pub unique_words: usize,
    pub vocabulary_size: usize,
    pub average_title_length: SinglePrecision,
    pub content_diversity_score: SinglePrecision,
}

/// Time and memory spent clustering.
#[derive(Clone, Debug, PartialEq, Default)]
pub struct PerformanceMetrics {
    pub total_processing_time_ms: u64,
    pub content_analysis_time_ms: u64,
    pub clustering_time_ms: u64,
    pub optimization_time_ms: u64,
    pub peak_memory_usage_bytes: u64,
    pub algorithm_iterations: u32,
    pub input_metrics: InputMetrics,
}

/// Everything recorded about the clustering of a course structure.
#[derive(Clone, Debug, PartialEq)]
pub struct ClusteringMetadata {
    pub algorithm_used: ClusteringAlgorithm,
    pub similarity_threshold: SinglePrecision,
    pub cluster_count: usize,
    pub quality_score: SinglePrecision,
    pub processing_time_ms: u64,
    pub content_topics: Vec<TopicInfo>,
    pub strategy_used: ClusteringStrategy,
    pub confidence_scores: ClusteringConfidenceScores,
    pub rationale: ClusteringRationale,
    pub performance_metrics: PerformanceMetrics,
}


impl ClusteringAlgorithm {
    /// The name shown for the algorithm in usage charts.
    pub fn chart_label(&self) -> (r: &'static str)
        ensures
            r@ == match *self {
                ClusteringAlgorithm::TfIdf => "TF-IDF"@,
                ClusteringAlgorithm::KMeans => "K-Means"@,
                ClusteringAlgorithm::Hierarchical => "Hierarchical"@,
                ClusteringAlgorithm::Lda => "LDA"@,
                ClusteringAlgorithm::Hybrid => "Hybrid"@,
                ClusteringAlgorithm::Fallback => "Fallback"@,
            },
    {
        match self {
            ClusteringAlgorithm::TfIdf => "TF-IDF",
            ClusteringAlgorithm::KMeans => "K-Means",
            ClusteringAlgorithm::Hierarchical => "Hierarchical",
            ClusteringAlgorithm::Lda => "LDA",
            ClusteringAlgorithm::Hybrid => "Hybrid",
            ClusteringAlgorithm::Fallback => "Fallback",
        }
    }
}

impl ClusteringStrategy {
    /// The name shown for the strategy in usage charts.
    pub fn chart_label(&self) -> (r: &'static str)
        ensures
            r@ == match *self {
                ClusteringStrategy::ContentBased => "Content-Based"@,
                ClusteringStrategy::DurationBased => "Duration-Based"@,
                ClusteringStrategy::Hierarchical => "Hierarchical"@,
                ClusteringStrategy::Lda => "LDA"@,
                ClusteringStrategy::Hybrid => "Hybrid"@,
                ClusteringStrategy::Fallback => "Fallback"@,
            },
    {
        match self {
            ClusteringStrategy::ContentBased => "Content-Based",
            ClusteringStrategy::DurationBased => "Duration-Based",
            ClusteringStrategy::Hierarchical => "Hierarchical",
            ClusteringStrategy::Lda => "LDA",
            ClusteringStrategy::Hybrid => "Hybrid",
            ClusteringStrategy::Fallback => "Fallback",
        }
    }
}

/// The algorithm a settings menu value names: "TfIdf", "KMeans",
/// "Hierarchical", "Lda" or "Hybrid"; any other value chooses Hybrid.
pub open spec fn algorithm_choice(value: Seq<char>) -> ClusteringAlgorithm {
    if value == "TfIdf"@ {
        ClusteringAlgorithm::TfIdf
    } else if value == "KMeans"@ {
        ClusteringAlgorithm::KMeans
    } else if value == "Hierarchical"@ {
        ClusteringAlgorithm::Hierarchical
    } else if value == "Lda"@ {
        ClusteringAlgorithm::Lda
    } else {
        ClusteringAlgorithm::Hybrid
    }
}

/// The algorithm chosen in the settings menu.
pub fn parse_algorithm_choice(value: &str) -> (r: ClusteringAlgorithm)
    ensures
        r == algorithm_choice(value@),
{
    if str_equal(value, "TfIdf") {
        ClusteringAlgorithm::TfIdf
    } else if str_equal(value, "KMeans") {
        ClusteringAlgorithm::KMeans
    } else if str_equal(value, "Hierarchical") {
        ClusteringAlgorithm::Hierarchical
    } else if str_equal(value, "Lda") {
        ClusteringAlgorithm::Lda
    } else {
        ClusteringAlgorithm::Hybrid
    }
}

/// The experience level a settings menu value names: "Beginner",
/// "Intermediate", "Advanced" or "Expert"; any other value chooses
/// Intermediate.
pub open spec fn experience_choice(value: Seq<char>) -> DifficultyLevel {
    if value == "Beginner"@ {
        DifficultyLevel::Beginner
    } else if value == "Advanced"@ {
        DifficultyLevel::Advanced
    } else if value == "Expert"@ {
        DifficultyLevel::Expert
    } else {
        DifficultyLevel::Intermediate
    }
}

/// The experience level chosen in the settings menu.
pub fn parse_experience_choice(value: &str) -> (r: DifficultyLevel)
    ensures
        r == experience_choice(value@),
{
    if str_equal(value, "Beginner") {
        DifficultyLevel::Beginner
    } else if str_equal(value, "Advanced") {
        DifficultyLevel::Advanced
    } else if str_equal(value, "Expert") {
        DifficultyLevel::Expert
    } else {
        DifficultyLevel::Intermediate
    }
}

/// What a feedback rating from one to five stars means.
pub open spec fn rating_text(stars: u32) -> Seq<char> {
    if stars == 1 {
        "Very Poor - Clustering made no sense"@
    } else if stars == 2 {
        "Poor - Many videos were grouped incorrectly"@
    } else if stars == 3 {
        "Average - Some good groups, some poor ones"@
    } else if stars == 4 {
        "Good - Most groups made sense with minor issues"@
    } else if stars == 5 {
        "Excellent - Perfect grouping, very logical"@
    } else {
        "Please rate your experience"@
    }
}

/// What a feedback rating means, as the feedback form says it.
pub fn rating_description(stars: u32) -> (r: &'static str)
    ensures
        r@ == rating_text(stars),
{
    if stars == 1 {
        "Very Poor - Clustering made no sense"
    } else if stars == 2 {
        "Poor - Many videos were grouped incorrectly"
    } else if stars == 3 {
        "Average - Some good groups, some poor ones"
    } else if stars == 4 {
        "Good - Most groups made sense with minor issues"
    } else if stars == 5 {
        "Excellent - Perfect grouping, very logical"
    } else {
        "Please rate your experience"
    }
}

/// The kinds of clustering feedback the feedback form offers.
#[derive(Clone, Copy, Debug, PartialEq, Eq, Structural)]
pub enum FeedbackType {
    ExplicitRating,
    ManualAdjustment,
    ParameterChange,
    ImplicitAcceptance,
    Rejection,
}

/// The feedback kind a menu value names; an unknown value is a plain rating.
pub open spec fn feedback_type_named(value: Seq<char>) -> FeedbackType {
    if value == "ManualAdjustment"@ {
        FeedbackType::ManualAdjustment
    } else if value == "ParameterChange"@ {
        FeedbackType::ParameterChange
    } else if value == "ImplicitAcceptance"@ {
        FeedbackType::ImplicitAcceptance
    } else if value == "Rejection"@ {
        FeedbackType::Rejection
    } else {
        FeedbackType::ExplicitRating
    }
}

/// The lengths of the five menu values, which differ pairwise.
proof fn lemma_feedback_menu_values_differ()
    ensures
        "ExplicitRating"@.len() == 14,
        "ManualAdjustment"@.len() == 16,
        "ParameterChange"@.len() == 15,
        "ImplicitAcceptance"@.len() == 18,
        "Rejection"@.len() == 9,
{
    reveal_strlit("ExplicitRating");
    reveal_strlit("ManualAdjustment");
    reveal_strlit("ParameterChange");
    reveal_strlit("ImplicitAcceptance");
    reveal_strlit("Rejection");
}

/// Reads the feedback kind chosen in the feedback form's menu.
pub fn parse_feedback_type(value: &str) -> (r: FeedbackType)
    ensures
        r == feedback_type_named(value@),
{
    proof {
        lemma_feedback_menu_values_differ();
    }
    if str_equal(value, "ExplicitRating") {
        FeedbackType::ExplicitRating
    } else if str_equal(value, "ManualAdjustment") {
        FeedbackType::ManualAdjustment
    } else if str_equal(value, "ParameterChange") {
        FeedbackType::ParameterChange
    } else if str_equal(value, "ImplicitAcceptance") {
        FeedbackType::ImplicitAcceptance
    } else if str_equal(value, "Rejection") {
        FeedbackType::Rejection
    } else {
        FeedbackType::ExplicitRating
    }
}

impl FeedbackType {
    /// The menu value of the kind, which `parse_feedback_type` reads back.
    pub fn menu_value(&self) -> (r: &'static str)
        ensures
            feedback_type_named(r@) == *self,
    {
        proof {
            lemma_feedback_menu_values_differ();
        }
        match self {
            FeedbackType::ExplicitRating => "ExplicitRating",
            FeedbackType::ManualAdjustment => "ManualAdjustment",
            FeedbackType::ParameterChange => "ParameterChange",
            FeedbackType::ImplicitAcceptance => "ImplicitAcceptance",
            FeedbackType::Rejection => "Rejection",
        }
    }

    /// The menu label of the kind.
    pub fn menu_label(&self) -> (r: &'static str)
        ensures
            r@ == match *self {
                FeedbackType::ExplicitRating => "General Rating"@,
                FeedbackType::ManualAdjustment => "After Manual Changes"@,
                FeedbackType::ParameterChange => "After Parameter Adjustment"@,
                FeedbackType::ImplicitAcceptance => "Accepted As-Is"@,
                FeedbackType::Rejection => "Rejected Clustering"@,
            },
    {
        match self {
            FeedbackType::ExplicitRating => "General Rating",
            FeedbackType::ManualAdjustment => "After Manual Changes",
            FeedbackType::ParameterChange => "After Parameter Adjustment",
            FeedbackType::ImplicitAcceptance => "Accepted As-Is",
            FeedbackType::Rejection => "Rejected Clustering",
        }
    }
}

/// The comments of a feedback: none when the text is blank, else the text
/// as typed.
pub fn feedback_comments(text: String) -> (r: Option<String>)
    ensures
        is_blank(text@) <==> r is None,
        r matches Some(c) ==> c == text,
{
    if is_blank_str(text.as_str()) {
        None
    } else {
        Some(text)
    }
}

} // verus!
