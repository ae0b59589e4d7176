//! Study plans: their settings, scheduled items, progress, and the state
//! of the plan view.
use vstd::prelude::*;
use std::collections::HashSet;
use crate::course::DifficultyLevel;
use crate::duration::{Duration, max_duration_nanos};
use crate::ids::Uuid;
use crate::ieee::SinglePrecision;
use crate::time::{UtcDateTime, utc_now};
use crate::text::{push_str_to, push_decimal, decimal};

verus! {

/// Strategies for spreading course content over sessions.
#[derive(Clone, Copy, Debug, PartialEq, Eq, Structural)]
pub enum DistributionStrategy {
    ModuleBased,
    TimeBased,
    Hybrid,
    DifficultyBased,
    SpacedRepetition,
    Adaptive,
}

/// Settings for the advanced scheduler.
#[derive(Clone, Debug, PartialEq)]
pub struct AdvancedSchedulerSettings {
    pub strategy: DistributionStrategy,
    pub difficulty_adaptation: bool,
    pub spaced_repetition_enabled: bool,
    pub cognitive_load_balancing: bool,
    pub user_experience_level: DifficultyLevel,
    pub custom_intervals: Option<Vec<i64>>,
    pub max_session_duration_minutes: Option<u32>,
    pub min_break_between_sessions_hours: Option<u32>,
    pub prioritize_difficult_content: bool,
    pub adaptive_pacing: bool,
}

/// How to schedule a plan.
#[derive(Clone, Debug, PartialEq)]
pub struct PlanSettings {
    pub start_date: UtcDateTime,
    pub sessions_per_week: u8,
    pub session_length_minutes: u32,
    pub include_weekends: bool,
    pub advanced_settings: Option<AdvancedSchedulerSettings>,
}

/// One scheduled session of a plan.
#[derive(Clone, Debug, PartialEq)]
pub struct PlanItem {
    pub date: UtcDateTime,
    pub module_title: String,
    pub section_title: String,
    pub video_indices: Vec<usize>,
    pub completed: bool,
    pub total_duration: Duration,
    pub estimated_completion_time: Duration,
    pub overflow_warnings: Vec<String>,
}

/// A study plan for a course.
#[derive(Clone, Debug, PartialEq)]
pub struct Plan {
    pub id: Uuid,
    pub course_id: Uuid,
    pub settings: PlanSettings,
    pub items: Vec<PlanItem>,
    pub created_at: UtcDateTime,
}

/// Identifies an item of a plan by the plan and the item's position.
#[derive(Clone, Copy, Debug, PartialEq, Eq, Structural)]
pub struct PlanItemIdentifier {
    pub plan_id: Uuid,
    pub item_index: usize,
}

/// Length classes of a course, which decide the recommended session
/// length: long courses (over twenty hours), short ones (under five), and
/// the rest.
#[derive(Clone, Copy, Debug, PartialEq, Eq, Structural)]
pub enum CourseLength {
    Long,
    Short,
    Standard,
}

/// The setting values `AdvancedSchedulerSettings::default` gives.
pub open spec fn is_default_settings_except_strategy(s: AdvancedSchedulerSettings) -> bool {
    &&& s.difficulty_adaptation
    &&& !s.spaced_repetition_enabled
    &&& s.cognitive_load_balancing
    &&& s.user_experience_level == DifficultyLevel::Intermediate
    &&& s.custom_intervals is None
    &&& s.max_session_duration_minutes is None
    &&& s.min_break_between_sessions_hours is None
    &&& !s.prioritize_difficult_content
    &&& s.adaptive_pacing
}

/// The first inconsistency `validate` reports, or `None`.
pub open spec fn settings_problem(s: AdvancedSchedulerSettings) -> Option<Seq<char>> {
    if s.spaced_repetition_enabled && s.strategy != DistributionStrategy::SpacedRepetition {
        Some("Spaced repetition enabled but strategy is not SpacedRepetition"@)
    } else if s.max_session_duration_minutes matches Some(m) && !(15 <= m && m <= 300) {
        Some("Session duration must be between 15 and 300 minutes"@)
    } else if s.min_break_between_sessions_hours matches Some(h) && h > 168 {
        Some("Minimum break between sessions cannot exceed 1 week"@)
    } else if s.custom_intervals matches Some(v) && v@.len() == 0 {
        Some("Custom intervals cannot be empty"@)
    } else if s.custom_intervals matches Some(v) && exists|i: int|
        0 <= i < v@.len() && #[trigger] v@[i] <= 0 {
        Some("All custom intervals must be positive"@)
    } else {
        None
    }
}

/// The strategy recommended for a learner level and a course difficulty.
pub open spec fn recommended_strategy(
    user_level: DifficultyLevel,
    course_complexity: DifficultyLevel,
) -> DistributionStrategy {
    match user_level {
        DifficultyLevel::Beginner => DistributionStrategy::SpacedRepetition,
        DifficultyLevel::Intermediate => match course_complexity {
            DifficultyLevel::Advanced | DifficultyLevel::Expert => DistributionStrategy::Adaptive,
            _ => DistributionStrategy::Hybrid,
        },
        _ => DistributionStrategy::Hybrid,
    }
}

/// The session length in minutes recommended for a course length.
pub open spec fn recommended_session_minutes(length: CourseLength) -> u32 {
    match length {
        CourseLength::Long => 90,
        CourseLength::Short => 45,
        CourseLength::Standard => 60,
    }
}

impl Default for AdvancedSchedulerSettings {
    fn default() -> (s: AdvancedSchedulerSettings)
        ensures
            s.strategy == DistributionStrategy::Hybrid,
            is_default_settings_except_strategy(s),
    {
        AdvancedSchedulerSettings {
            strategy: DistributionStrategy::Hybrid,
            difficulty_adaptation: true,
            spaced_repetition_enabled: false,
            cognitive_load_balancing: true,
            user_experience_level: DifficultyLevel::Intermediate,
            custom_intervals: None,
            max_session_duration_minutes: None,
            min_break_between_sessions_hours: None,
            prioritize_difficult_content: false,
            adaptive_pacing: true,
        }
    }
}

impl AdvancedSchedulerSettings {
    /// The default settings with another strategy.
    pub fn with_strategy(strategy: DistributionStrategy) -> (s: AdvancedSchedulerSettings)
        ensures
            s.strategy == strategy,
            is_default_settings_except_strategy(s),
    {
        AdvancedSchedulerSettings { strategy, ..AdvancedSchedulerSettings::default() }
    }

    /// Settings for beginners: spaced repetition, with load balancing.
    pub fn for_beginner() -> (s: AdvancedSchedulerSettings)
        ensures
            s.strategy == DistributionStrategy::SpacedRepetition,
            s.difficulty_adaptation,
            s.spaced_repetition_enabled,
            s.cognitive_load_balancing,
            s.user_experience_level == DifficultyLevel::Beginner,
            s.custom_intervals is None,
            s.max_session_duration_minutes is None,
            s.min_break_between_sessions_hours is None,
            !s.prioritize_difficult_content,
            s.adaptive_pacing,
    {
        AdvancedSchedulerSettings {
            strategy: DistributionStrategy::SpacedRepetition,
            difficulty_adaptation: true,
            spaced_repetition_enabled: true,
            cognitive_load_balancing: true,
            user_experience_level: DifficultyLevel::Beginner,
            prioritize_difficult_content: false,
            adaptive_pacing: true,
            ..AdvancedSchedulerSettings::default()
        }
    }

    /// Settings for advanced learners: adaptive, difficult content first.
    pub fn for_advanced() -> (s: AdvancedSchedulerSettings)
        ensures
            s.strategy == DistributionStrategy::Adaptive,
            s.difficulty_adaptation,
            !s.spaced_repetition_enabled,
            !s.cognitive_load_balancing,
            s.user_experience_level == DifficultyLevel::Advanced,
            s.custom_intervals is None,
            s.max_session_duration_minutes is None,
            s.min_break_between_sessions_hours is None,
            s.prioritize_difficult_content,
            s.adaptive_pacing,
    {
        AdvancedSchedulerSettings {
            strategy: DistributionStrategy::Adaptive,
            difficulty_adaptation: true,
            spaced_repetition_enabled: false,
            cognitive_load_balancing: false,
            user_experience_level: DifficultyLevel::Advanced,
            prioritize_difficult_content: true,
            adaptive_pacing: true,
            ..AdvancedSchedulerSettings::default()
        }
    }

    /// Checks the settings for consistency and reports the first problem.
    pub fn validate(&self) -> (r: Result<(), String>)
        ensures
            r is Ok <==> settings_problem(*self) is None,
            r matches Err(e) ==> settings_problem(*self) == Some(e@),
    {
        if self.spaced_repetition_enabled && !matches!(
            self.strategy,
            DistributionStrategy::SpacedRepetition
        ) {
            return Err(
                String::from_str("Spaced repetition enabled but strategy is not SpacedRepetition"),
            );
        }
        if let Some(max_duration) = self.max_session_duration_minutes {
            if !(15 <= max_duration && max_duration <= 300) {
                return Err(String::from_str("Session duration must be between 15 and 300 minutes"));
            }
        }
        if let Some(min_break) = self.min_break_between_sessions_hours {
            if min_break > 168 {
                return Err(String::from_str("Minimum break between sessions cannot exceed 1 week"));
            }
        }
        if let Some(intervals) = &self.custom_intervals {
            if intervals.len() == 0 {
                return Err(String::from_str("Custom intervals cannot be empty"));
            }
            let mut i: usize = 0;
            #[verifier::loop_isolation(false)]
            while i < intervals.len()
                invariant
                    i <= intervals@.len(),
                    forall|j: int| 0 <= j < i ==> intervals@[j] > 0,
                decreases intervals.len() - i,
            {
                if intervals[i] <= 0 {
                    assert(intervals@[i as int] <= 0);
                    return Err(String::from_str("All custom intervals must be positive"));
                }
                i = i + 1;
            }
        }
        Ok(())
    }

    /// Settings recommended for a learner level, a course difficulty and a
    /// course length class.
    pub fn recommend_for_course(
        user_level: DifficultyLevel,
        course_complexity: DifficultyLevel,
        course_length: CourseLength,
    ) -> (s: AdvancedSchedulerSettings)
        ensures
            s.strategy == recommended_strategy(user_level, course_complexity),
            s.difficulty_adaptation,
            s.spaced_repetition_enabled == (user_level == DifficultyLevel::Beginner),
            s.cognitive_load_balancing,
            s.user_experience_level == user_level,
            s.custom_intervals is None,
            s.max_session_duration_minutes == Some(recommended_session_minutes(course_length)),
            s.min_break_between_sessions_hours is None,
            s.prioritize_difficult_content == (user_level == DifficultyLevel::Advanced
                || user_level == DifficultyLevel::Expert),
            s.adaptive_pacing,
    {
        let strategy = match user_level {
            DifficultyLevel::Beginner => DistributionStrategy::SpacedRepetition,
            DifficultyLevel::Intermediate => match course_complexity {
                DifficultyLevel::Advanced | DifficultyLevel::Expert => DistributionStrategy::Adaptive,
                _ => DistributionStrategy::Hybrid,
            },
            _ => DistributionStrategy::Hybrid,
        };
        let spaced_repetition = matches!(user_level, DifficultyLevel::Beginner);
        let prioritize_difficult = matches!(
            user_level,
            DifficultyLevel::Advanced | DifficultyLevel::Expert
        );
        let max_session_duration: u32 = match course_length {
            CourseLength::Long => 90,
            CourseLength::Short => 45,
            CourseLength::Standard => 60,
        };
        AdvancedSchedulerSettings {
            strategy,
            difficulty_adaptation: true,
            spaced_repetition_enabled: spaced_repetition,
            cognitive_load_balancing: true,
            user_experience_level: user_level,
            max_session_duration_minutes: Some(max_session_duration),
            prioritize_difficult_content: prioritize_difficult,
            adaptive_pacing: true,
            ..AdvancedSchedulerSettings::default()
        }
    }
}

impl DistributionStrategy {
    /// All strategies, in declaration order.
    pub fn all() -> (v: Vec<DistributionStrategy>)
        ensures
            v@ == seq![
                DistributionStrategy::ModuleBased,
                DistributionStrategy::TimeBased,
                DistributionStrategy::Hybrid,
                DistributionStrategy::DifficultyBased,
                DistributionStrategy::SpacedRepetition,
                DistributionStrategy::Adaptive,
            ],
    {
        let v = vec![
            DistributionStrategy::ModuleBased,
            DistributionStrategy::TimeBased,
            DistributionStrategy::Hybrid,
            DistributionStrategy::DifficultyBased,
            DistributionStrategy::SpacedRepetition,
            DistributionStrategy::Adaptive,
        ];
        assert(v@ =~= seq![
            DistributionStrategy::ModuleBased,
            DistributionStrategy::TimeBased,
            DistributionStrategy::Hybrid,
            DistributionStrategy::DifficultyBased,
            DistributionStrategy::SpacedRepetition,
            DistributionStrategy::Adaptive,
        ]);
        v
    }

    /// The name shown for the strategy.
    pub fn display_name(&self) -> (r: &'static str)
        ensures
            r@ == match *self {
                DistributionStrategy::ModuleBased => "Module-based"@,
                DistributionStrategy::TimeBased => "Time-based"@,
                DistributionStrategy::Hybrid => "Hybrid"@,
                DistributionStrategy::DifficultyBased => "Difficulty-based"@,
                DistributionStrategy::SpacedRepetition => "Spaced Repetition"@,
                DistributionStrategy::Adaptive => "Adaptive"@,
            },
    {
        match self {
            DistributionStrategy::ModuleBased => "Module-based",
            DistributionStrategy::TimeBased => "Time-based",
            DistributionStrategy::Hybrid => "Hybrid",
            DistributionStrategy::DifficultyBased => "Difficulty-based",
            DistributionStrategy::SpacedRepetition => "Spaced Repetition",
            DistributionStrategy::Adaptive => "Adaptive",
        }
    }

    /// A sentence describing the strategy.
    pub fn description(&self) -> (r: &'static str)
        ensures
            r@ == match *self {
                DistributionStrategy::ModuleBased => "Respects module boundaries and logical content grouping"@,
                DistributionStrategy::TimeBased => "Focuses on even time distribution across sessions"@,
                DistributionStrategy::Hybrid => "Balances both module structure and time constraints"@,
                DistributionStrategy::DifficultyBased => "Adapts pacing based on content difficulty"@,
                DistributionStrategy::SpacedRepetition => "Optimizes for memory retention with review sessions"@,
                DistributionStrategy::Adaptive => "AI-driven scheduling based on learning patterns"@,
            },
    {
        match self {
            DistributionStrategy::ModuleBased => "Respects module boundaries and logical content grouping",
            DistributionStrategy::TimeBased => "Focuses on even time distribution across sessions",
            DistributionStrategy::Hybrid => "Balances both module structure and time constraints",
            DistributionStrategy::DifficultyBased => "Adapts pacing based on content difficulty",
            DistributionStrategy::SpacedRepetition => "Optimizes for memory retention with review sessions",
            DistributionStrategy::Adaptive => "AI-driven scheduling based on learning patterns",
        }
    }
}

impl DifficultyLevel {
    /// All levels, from easiest to hardest.
    pub fn all() -> (v: Vec<DifficultyLevel>)
        ensures
            v@ == seq![
                DifficultyLevel::Beginner,
                DifficultyLevel::Intermediate,
                DifficultyLevel::Advanced,
                DifficultyLevel::Expert,
            ],
    {
        let v = vec![
            DifficultyLevel::Beginner,
            DifficultyLevel::Intermediate,
            DifficultyLevel::Advanced,
            DifficultyLevel::Expert,
        ];
        assert(v@ =~= seq![
            DifficultyLevel::Beginner,
            DifficultyLevel::Intermediate,
            DifficultyLevel::Advanced,
            DifficultyLevel::Expert,
        ]);
        v
    }

    /// The name shown for the level.
    pub fn display_name(&self) -> (r: &'static str)
        ensures
            r@ == match *self {
                DifficultyLevel::Beginner => "Beginner"@,
                DifficultyLevel::Intermediate => "Intermediate"@,
                DifficultyLevel::Advanced => "Advanced"@,
                DifficultyLevel::Expert => "Expert"@,
            },
    {
        match self {
            DifficultyLevel::Beginner => "Beginner",
            DifficultyLevel::Intermediate => "Intermediate",
            DifficultyLevel::Advanced => "Advanced",
            DifficultyLevel::Expert => "Expert",
        }
    }
}

impl Default for DifficultyLevel {
    fn default() -> (r: DifficultyLevel)
        ensures
            r == DifficultyLevel::Intermediate,
    {
        DifficultyLevel::Intermediate
    }
}

impl Default for DistributionStrategy {
    fn default() -> (r: DistributionStrategy)
        ensures
            r == DistributionStrategy::Hybrid,
    {
        DistributionStrategy::Hybrid
    }
}

/// Number of completed items.
pub open spec fn completed_count(items: Seq<PlanItem>) -> nat
    decreases items.len(),
{
    if items.len() == 0 {
        0
    } else {
        completed_count(items.drop_last()) + if items.last().completed {
            1nat
        } else {
            0nat
        }
    }
}

/// Marking one session done or not done changes the number of completed
/// sessions by at most one: by one up when an open session is marked done,
/// by one down when a done session is reopened, not at all otherwise.
pub proof fn lemma_completion_update_count(items: Seq<PlanItem>, index: int, completed: bool)
    requires
        0 <= index < items.len(),
    ensures
        completed_count(items.update(index, PlanItem { completed, ..items[index] })) + (if items[index].completed {
            1int
        } else {
            0int
        }) == completed_count(items) + (if completed {
            1int
        } else {
            0int
        }),
    decreases items.len(),
{
    let updated = items.update(index, PlanItem { completed, ..items[index] });
    if index == items.len() - 1 {
        assert(updated.drop_last() =~= items.drop_last());
    } else {
        lemma_completion_update_count(items.drop_last(), index, completed);
        assert(updated.drop_last() =~= items.drop_last().update(
            index,
            PlanItem { completed, ..items[index] },
        ));
    }
}

/// A count over a prefix never exceeds the prefix's length.
pub proof fn lemma_completed_count_bounded(items: Seq<PlanItem>)
    ensures
        completed_count(items) <= items.len(),
    decreases items.len(),
{
    if items.len() > 0 {
        lemma_completed_count_bounded(items.drop_last());
    }
}

/// The message for an index past the end of a plan.
pub open spec fn out_of_bounds_message(index: nat) -> Seq<char> {
    "Plan item index "@ + decimal(index) + " out of bounds"@
}

impl PlanItemIdentifier {
    /// An identifier from its parts.
    pub fn new(plan_id: Uuid, item_index: usize) -> (r: PlanItemIdentifier)
        ensures
            r.plan_id == plan_id,
            r.item_index == item_index,
    {
        PlanItemIdentifier { plan_id, item_index }
    }
}

impl Plan {
    /// An empty plan for a course, with a fresh id, created now.
    pub fn new(course_id: Uuid, settings: PlanSettings) -> (p: Plan)
        ensures
            p.course_id == course_id,
            p.settings == settings,
            p.items@.len() == 0,
    {
        Plan { id: Uuid::new_v4(), course_id, settings, items: Vec::new(), created_at: utc_now() }
    }

    /// The number of sessions.
    pub fn total_sessions(&self) -> (r: usize)
        ensures
            r == self.items@.len(),
    {
        self.items.len()
    }

    /// The number of completed sessions.
    pub fn completed_sessions(&self) -> (r: usize)
        ensures
            r == completed_count(self.items@),
    {
        let mut count: usize = 0;
        let mut i: usize = 0;
        while i < self.items.len()
            invariant
                i <= self.items@.len(),
                count == completed_count(self.items@.subrange(0, i as int)),
                count <= i,
            decreases self.items.len() - i,
        {
            proof {
                assert(self.items@.subrange(0, i + 1).drop_last() =~= self.items@.subrange(
                    0,
                    i as int,
                ));
            }
            if self.items[i].completed {
                count = count + 1;
            }
            i = i + 1;
        }
        assert(self.items@.subrange(0, self.items@.len() as int) =~= self.items@);
        count
    }

    /// The identifier of the item at an index.
    pub fn get_item_identifier(&self, index: usize) -> (r: PlanItemIdentifier)
        ensures
            r.plan_id == self.id,
            r.item_index == index,
    {
        PlanItemIdentifier::new(self.id, index)
    }

    /// Marks an item completed or not; an index past the end is reported.
    pub fn update_item_completion(&mut self, index: usize, completed: bool) -> (r: Result<
        (),
        String,
    >)
        ensures
            r is Ok <==> index < old(self).items@.len(),
            r is Ok ==> final(self).items@ == old(self).items@.update(
                index as int,
                PlanItem { completed, ..old(self).items@[index as int] },
            ),
            r matches Err(e) ==> e@ == out_of_bounds_message(index as nat) && *final(self)
                == *old(self),
            final(self).id == old(self).id,
            final(self).course_id == old(self).course_id,
            final(self).settings == old(self).settings,
            final(self).created_at == old(self).created_at,
    {
        if index < self.items.len() {
            self.items[index].completed = completed;
            Ok(())
        } else {
            let mut msg = String::from_str("Plan item index ");
            push_decimal(&mut msg, index as u64);
            push_str_to(&mut msg, " out of bounds");
            Err(msg)
        }
    }

    /// Completed and total item counts (the counting part of
    /// `calculate_progress`).
    pub fn calculate_progress(&self) -> (r: (usize, usize))
        ensures
            r.0 == completed_count(self.items@),
            r.1 == self.items@.len(),
            r.0 <= r.1,
    {
        proof {
            lemma_completed_count_bounded(self.items@);
        }
        (self.completed_sessions(), self.items.len())
    }

    /// Time still to study: one session length per unfinished item, or
    /// `None` when every item is done. The count is narrowed to 32 bits
    /// before multiplying, and the product must fit in a duration (the
    /// multiplication panics otherwise).
    pub fn estimated_time_remaining(&self) -> (r: Option<Duration>)
        requires
            (self.settings.session_length_minutes as nat) * 60 * (((self.items@.len()
                - completed_count(self.items@)) as nat) % 0x1_0000_0000) <= u64::MAX,
        ensures
            completed_count(self.items@) >= self.items@.len() ==> r is None,
            completed_count(self.items@) < self.items@.len() ==> (r matches Some(d) && d@ == (
            self.settings.session_length_minutes as nat) * 60 * (((self.items@.len()
                - completed_count(self.items@)) as nat) % 0x1_0000_0000) * 1_000_000_000),
    {
        let (completed, total) = self.calculate_progress();
        if completed < total {
            let remaining = total - completed;
            let factor: u64 = (remaining as u64) % 0x1_0000_0000;
            let minutes = self.settings.session_length_minutes as u64;
            let secs = minutes * 60 * factor;
            Some(Duration::from_secs(secs))
        } else {
            None
        }
    }
}


/// Progress of a plan regeneration.
#[derive(Clone, Debug, PartialEq)]
pub enum RegenerationStatus {
    Idle,
    InProgress { progress: SinglePrecision, message: String },
    Completed,
    Failed { error: String },
}

/// State of the plan view: which sessions are expanded, which videos are
/// selected, the regeneration status and when the state last changed.
#[derive(Debug)]
pub struct PlanViewState {
    pub expanded_sessions: HashSet<usize>,
    pub selected_videos: HashSet<usize>,
    pub regeneration_status: RegenerationStatus,
    pub last_update: UtcDateTime,
}

/// A change of a video's completion within a plan session.
#[derive(Clone, Debug, PartialEq)]
pub struct VideoProgressUpdate {
    pub plan_id: Uuid,
    pub session_index: usize,
    pub video_index: usize,
    pub completed: bool,
    pub timestamp: UtcDateTime,
}

impl VideoProgressUpdate {
    /// An update stamped with the current time.
    pub fn new(plan_id: Uuid, session_index: usize, video_index: usize, completed: bool) -> (u:
        VideoProgressUpdate)
        ensures
            u.plan_id == plan_id,
            u.session_index == session_index,
            u.video_index == video_index,
            u.completed == completed,
    {
        VideoProgressUpdate { plan_id, session_index, video_index, completed, timestamp: utc_now() }
    }

    /// An update marking a video completed.
    pub fn completed(plan_id: Uuid, session_index: usize, video_index: usize) -> (u:
        VideoProgressUpdate)
        ensures
            u.plan_id == plan_id,
            u.session_index == session_index,
            u.video_index == video_index,
            u.completed,
    {
        VideoProgressUpdate::new(plan_id, session_index, video_index, true)
    }

    /// An update marking a video not completed.
    pub fn uncompleted(plan_id: Uuid, session_index: usize, video_index: usize) -> (u:
        VideoProgressUpdate)
        ensures
            u.plan_id == plan_id,
            u.session_index == session_index,
            u.video_index == video_index,
            !u.completed,
    {
        VideoProgressUpdate::new(plan_id, session_index, video_index, false)
    }
}

/// A set with one element added if absent, removed if present.
pub open spec fn toggled(s: Set<usize>, k: usize) -> Set<usize> {
    if s.contains(k) {
        s.remove(k)
    } else {
        s.insert(k)
    }
}

/// Toggling the same element twice restores the set.
pub proof fn lemma_toggle_twice(s: Set<usize>, k: usize)
    ensures
        toggled(toggled(s, k), k) == s,
{
    assert(toggled(toggled(s, k), k) =~= s);
}

impl Default for PlanViewState {
    fn default() -> (s: PlanViewState)
        ensures
            s.expanded_sessions@ == Set::<usize>::empty(),
            s.selected_videos@ == Set::<usize>::empty(),
            s.regeneration_status == RegenerationStatus::Idle,
    {
        PlanViewState {
            expanded_sessions: HashSet::new(),
            selected_videos: HashSet::new(),
            regeneration_status: RegenerationStatus::Idle,
            last_update: utc_now(),
        }
    }
}

impl PlanViewState {
    /// A state with nothing expanded or selected and no regeneration.
    pub fn new() -> (s: PlanViewState)
        ensures
            s.expanded_sessions@ == Set::<usize>::empty(),
            s.selected_videos@ == Set::<usize>::empty(),
            s.regeneration_status == RegenerationStatus::Idle,
    {
        PlanViewState::default()
    }

    /// Expands a collapsed session, or collapses an expanded one.
    pub fn toggle_session(&mut self, session_index: usize)
        ensures
            final(self).expanded_sessions@ == toggled(old(self).expanded_sessions@, session_index),
            final(self).selected_videos@ == old(self).selected_videos@,
            final(self).regeneration_status == old(self).regeneration_status,
    {
        broadcast use vstd::std_specs::hash::group_hash_axioms;
        if self.expanded_sessions.contains(&session_index) {
            self.expanded_sessions.remove(&session_index);
        } else {
            self.expanded_sessions.insert(session_index);
        }
        self.last_update = utc_now();
    }

    /// Whether a session is expanded.
    pub fn is_session_expanded(&self, session_index: usize) -> (r: bool)
        ensures
            r == self.expanded_sessions@.contains(session_index),
    {
        broadcast use vstd::std_specs::hash::group_hash_axioms;
        self.expanded_sessions.contains(&session_index)
    }

    /// Selects an unselected video, or unselects a selected one.
    pub fn toggle_video_selection(&mut self, video_index: usize)
        ensures
            final(self).selected_videos@ == toggled(old(self).selected_videos@, video_index),
            final(self).expanded_sessions@ == old(self).expanded_sessions@,
            final(self).regeneration_status == old(self).regeneration_status,
    {
        broadcast use vstd::std_specs::hash::group_hash_axioms;
        if self.selected_videos.contains(&video_index) {
            self.selected_videos.remove(&video_index);
        } else {
            self.selected_videos.insert(video_index);
        }
        self.last_update = utc_now();
    }

    /// Whether a video is selected.
    pub fn is_video_selected(&self, video_index: usize) -> (r: bool)
        ensures
            r == self.selected_videos@.contains(video_index),
    {
        broadcast use vstd::std_specs::hash::group_hash_axioms;
        self.selected_videos.contains(&video_index)
    }

    /// Records a new regeneration status.
    pub fn set_regeneration_status(&mut self, status: RegenerationStatus)
        ensures
            final(self).regeneration_status == status,
            final(self).expanded_sessions@ == old(self).expanded_sessions@,
            final(self).selected_videos@ == old(self).selected_videos@,
    {
        self.regeneration_status = status;
        self.last_update = utc_now();
    }

    /// Collapses every session and unselects every video.
    pub fn clear_selections(&mut self)
        ensures
            final(self).expanded_sessions@ == Set::<usize>::empty(),
            final(self).selected_videos@ == Set::<usize>::empty(),
            final(self).regeneration_status == old(self).regeneration_status,
    {
        self.expanded_sessions.clear();
        self.selected_videos.clear();
        self.last_update = utc_now();
    }

    /// The number of expanded sessions.
    pub fn expanded_session_count(&self) -> (r: usize)
        ensures
            r == self.expanded_sessions@.len(),
    {
        broadcast use vstd::std_specs::hash::group_hash_axioms;
        self.expanded_sessions.len()
    }

    /// The number of selected videos.
    pub fn selected_video_count(&self) -> (r: usize)
        ensures
            r == self.selected_videos@.len(),
    {
        broadcast use vstd::std_specs::hash::group_hash_axioms;
        self.selected_videos.len()
    }
}

/// The completion of the last item of `existing` scheduled for exactly
/// the videos `key`, if there is one.
pub open spec fn last_completion_for(existing: Seq<PlanItem>, key: Seq<usize>) -> Option<bool>
    decreases existing.len(),
{
    if existing.len() == 0 {
        None
    } else if existing.last().video_indices@ == key {
        Some(existing.last().completed)
    } else {
        last_completion_for(existing.drop_last(), key)
    }
}

/// An item of a regenerated plan after its progress is carried over.
pub open spec fn carried_over(existing: Seq<PlanItem>, item: PlanItem) -> PlanItem {
    match last_completion_for(existing, item.video_indices@) {
        Some(c) => PlanItem { completed: c, ..item },
        None => item,
    }
}

/// Whether two index lists are equal.
pub fn index_lists_equal(a: &Vec<usize>, b: &Vec<usize>) -> (r: bool)
    ensures
        r == (a@ == b@),
{
    if a.len() != b.len() {
        return false;
    }
    let mut i: usize = 0;
    while i < a.len()
        invariant
            a@.len() == b@.len(),
            i <= a@.len(),
            forall|j: int| 0 <= j < i ==> a@[j] == b@[j],
        decreases a.len() - i,
    {
        if a[i] != b[i] {
            return false;
        }
        i = i + 1;
    }
    assert(a@ =~= b@);
    true
}

/// Looks up the completion of the last existing item scheduled for the
/// same videos.
fn find_last_completion(existing: &Vec<PlanItem>, key: &Vec<usize>) -> (r: Option<bool>)
    ensures
        r == last_completion_for(existing@, key@),
{
    let mut k: usize = existing.len();
    assert(existing@.subrange(0, k as int) =~= existing@);
    while k > 0
        invariant
            k <= existing@.len(),
            last_completion_for(existing@, key@) == last_completion_for(
                existing@.subrange(0, k as int),
                key@,
            ),
        decreases k,
    {
        proof {
            assert(existing@.subrange(0, k as int).drop_last() =~= existing@.subrange(
                0,
                k - 1,
            ));
        }
        if index_lists_equal(&existing[k - 1].video_indices, key) {
            return Some(existing[k - 1].completed);
        }
        k = k - 1;
    }
    None
}

/// After a plan is regenerated, carries over completion from the plan it
/// replaces: every new item scheduled for exactly the same videos as an
/// existing item takes that item's completion (the last such item where
/// several match); other items are unchanged.
pub fn preserve_plan_progress(existing_plan: &Plan, new_plan: &mut Plan)
    ensures
        final(new_plan).items@.len() == old(new_plan).items@.len(),
        forall|i: int|
            0 <= i < old(new_plan).items@.len() ==> #[trigger] final(new_plan).items@[i]
                == carried_over(existing_plan.items@, old(new_plan).items@[i]),
        final(new_plan).id == old(new_plan).id,
        final(new_plan).course_id == old(new_plan).course_id,
        final(new_plan).settings == old(new_plan).settings,
        final(new_plan).created_at == old(new_plan).created_at,
{
    let mut i: usize = 0;
    while i < new_plan.items.len()
        invariant
            i <= new_plan.items@.len(),
            new_plan.items@.len() == old(new_plan).items@.len(),
            forall|j: int|
                0 <= j < i ==> #[trigger] new_plan.items@[j] == carried_over(
                    existing_plan.items@,
                    old(new_plan).items@[j],
                ),
            forall|j: int|
                i <= j < new_plan.items@.len() ==> #[trigger] new_plan.items@[j] == old(
                    new_plan,
                ).items@[j],
            new_plan.id == old(new_plan).id,
            new_plan.course_id == old(new_plan).course_id,
            new_plan.settings == old(new_plan).settings,
            new_plan.created_at == old(new_plan).created_at,
        decreases new_plan.items.len() - i,
    {
        let found = find_last_completion(&existing_plan.items, &new_plan.items[i].video_indices);
        if let Some(completed) = found {
            new_plan.items[i].completed = completed;
        }
        i = i + 1;
    }
}

/// The plan that replaces an existing one after it is regenerated: the new
/// schedule, with the completion of sessions for the same videos carried
/// over, under the existing plan's id.
pub fn adopt_regenerated_plan(existing_plan: &Plan, new_plan: Plan) -> (r: Plan)
    ensures
        r.id == existing_plan.id,
        r.course_id == new_plan.course_id,
        r.settings == new_plan.settings,
        r.created_at == new_plan.created_at,
        r.items@.len() == new_plan.items@.len(),
        forall|i: int|
            0 <= i < new_plan.items@.len() ==> #[trigger] r.items@[i] == carried_over(
                existing_plan.items@,
                new_plan.items@[i],
            ),
{
    let mut plan = new_plan;
    preserve_plan_progress(existing_plan, &mut plan);
    plan.id = existing_plan.id;
    plan
}

/// Carrying progress over twice from the same plan changes nothing more:
/// the completion an item takes depends only on its videos.
pub proof fn lemma_carry_over_idempotent(existing: Seq<PlanItem>, item: PlanItem)
    ensures
        carried_over(existing, carried_over(existing, item)) == carried_over(existing, item),
{
}

/// What carrying progress over does to one new item: only its completion
/// can change; when no existing item is scheduled for exactly
/// the same videos (same length, same entries) it stays as it is; otherwise
/// it takes the completion of the last existing item with exactly those
/// videos.
pub proof fn lemma_carry_over_needs_same_videos(existing: Seq<PlanItem>, item: PlanItem)
    ensures
        carried_over(existing, item) == (PlanItem {
            completed: carried_over(existing, item).completed,
            ..item
        }),
        (forall|j: int| 0 <= j < existing.len() ==> existing[j].video_indices@ != item.video_indices@)
            ==> carried_over(existing, item) == item,
        forall|j: int|
            0 <= j < existing.len() && existing[j].video_indices@ == item.video_indices@ && (forall|
                k: int,
            | j < k < existing.len() ==> existing[k].video_indices@ != item.video_indices@)
                ==> carried_over(existing, item).completed == existing[j].completed,
    decreases existing.len(),
{
    if existing.len() > 0 {
        let rest = existing.drop_last();
        lemma_carry_over_needs_same_videos(rest, item);
        if existing.last().video_indices@ != item.video_indices@ {
            assert(last_completion_for(existing, item.video_indices@) == last_completion_for(
                rest,
                item.video_indices@,
            ));
            assert forall|j: int|
                0 <= j < existing.len() && existing[j].video_indices@ == item.video_indices@ && (
                forall|k: int| j < k < existing.len() ==> existing[k].video_indices@
                    != item.video_indices@) implies carried_over(existing, item).completed
                == existing[j].completed by {
                assert(j < existing.len() - 1);
                assert(rest[j] == existing[j]);
                assert forall|k: int| j < k < rest.len() implies rest[k].video_indices@
                    != item.video_indices@ by {
                    assert(rest[k] == existing[k]);
                }
            }
            if forall|j: int| 0 <= j < existing.len() ==> existing[j].video_indices@
                != item.video_indices@ {
                assert forall|j: int| 0 <= j < rest.len() implies rest[j].video_indices@
                    != item.video_indices@ by {
                    assert(rest[j] == existing[j]);
                }
            }
        } else {
            assert forall|j: int|
                0 <= j < existing.len() && existing[j].video_indices@ == item.video_indices@ && (
                forall|k: int| j < k < existing.len() ==> existing[k].video_indices@
                    != item.video_indices@) implies carried_over(existing, item).completed
                == existing[j].completed by {
                if j < existing.len() - 1 {
                    assert(existing[existing.len() - 1].video_indices@ != item.video_indices@);
                }
            }
            assert(existing[existing.len() - 1].video_indices@ == item.video_indices@);
        }
    }
}

} // verus!
