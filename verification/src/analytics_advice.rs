//! The advice the analytics views give. The caller measures a study
//! pattern (pace, load spread, regularity) and reports which thresholds it
//! crossed; these functions decide what is said, and in which order.
use vstd::prelude::*;
use crate::course::{DifficultyLevel, str_equal};
use crate::plan::{AdvancedSchedulerSettings, DistributionStrategy};

verus! {

/// The progression advice for the thresholds crossed, in this order: more
/// frequent sessions (gaps above three days on average), steadier intervals
/// (consistency below 0.7), weekend use (below 0.3), re-clustering (quality
/// below 0.6); praise when none is crossed.
pub open spec fn progression_advice(
    sparse_sessions: bool,
    irregular_intervals: bool,
    weekends_unused: bool,
    weak_structure: bool,
) -> Seq<Seq<char>> {
    let s = (if sparse_sessions {
        seq!["Consider increasing session frequency to maintain momentum"@]
    } else {
        seq![]
    }) + (if irregular_intervals {
        seq!["Try to maintain more consistent study intervals"@]
    } else {
        seq![]
    }) + (if weekends_unused {
        seq!["Consider utilizing weekends for additional study sessions"@]
    } else {
        seq![]
    }) + (if weak_structure {
        seq!["Review course structure quality - some courses may benefit from re-clustering"@]
    } else {
        seq![]
    });
    if s.len() == 0 {
        seq!["Great job! Your study patterns are well optimized"@]
    } else {
        s
    }
}

fn push_text(v: &mut Vec<String>, text: &str)
    ensures
        final(v)@.map_values(|s: String| s@) == old(v)@.map_values(|s: String| s@).push(text@),
{
    let ghost before = v@;
    v.push(String::from_str(text));
    assert(v@.map_values(|s: String| s@) =~= before.map_values(|s: String| s@).push(text@));
}

/// The longest gap between sessions over all plans, in days; no plans
/// give 0.
pub fn longest_gap_days(gaps: &[i64]) -> (r: i64)
    ensures
        gaps@.len() == 0 ==> r == 0,
        gaps@.len() > 0 ==> gaps@.contains(r),
        forall|i: int| 0 <= i < gaps@.len() ==> gaps@[i] <= r,
{
    if gaps.len() == 0 {
        return 0;
    }
    let mut best: i64 = gaps[0];
    let mut i: usize = 1;
    while i < gaps.len()
        invariant
            1 <= i <= gaps@.len(),
            gaps@.contains(best),
            forall|j: int| 0 <= j < i ==> gaps@[j] <= best,
        decreases gaps.len() - i,
    {
        if gaps[i] > best {
            best = gaps[i];
        }
        i = i + 1;
    }
    best
}

/// The progression advice of the learning analytics view.
pub fn progression_recommendations(
    sparse_sessions: bool,
    irregular_intervals: bool,
    weekends_unused: bool,
    weak_structure: bool,
) -> (r: Vec<String>)
    ensures
        r@.map_values(|s: String| s@) == progression_advice(
            sparse_sessions,
            irregular_intervals,
            weekends_unused,
            weak_structure,
        ),
{
    let mut r: Vec<String> = Vec::new();
    if sparse_sessions {
        push_text(&mut r, "Consider increasing session frequency to maintain momentum");
    }
    if irregular_intervals {
        push_text(&mut r, "Try to maintain more consistent study intervals");
    }
    if weekends_unused {
        push_text(&mut r, "Consider utilizing weekends for additional study sessions");
    }
    if weak_structure {
        push_text(
            &mut r,
            "Review course structure quality - some courses may benefit from re-clustering",
        );
    }
    assert(r@.map_values(|s: String| s@) =~= (if sparse_sessions {
        seq!["Consider increasing session frequency to maintain momentum"@]
    } else {
        seq![]
    }) + (if irregular_intervals {
        seq!["Try to maintain more consistent study intervals"@]
    } else {
        seq![]
    }) + (if weekends_unused {
        seq!["Consider utilizing weekends for additional study sessions"@]
    } else {
        seq![]
    }) + (if weak_structure {
        seq!["Review course structure quality - some courses may benefit from re-clustering"@]
    } else {
        seq![]
    }));
    if r.len() == 0 {
        push_text(&mut r, "Great job! Your study patterns are well optimized");
    }
    r
}

/// A suggestion card: title, description, priority ("High", "Medium" or
/// "Low") and icon.
#[derive(Clone, Debug, PartialEq)]
pub struct OptimizationSuggestion {
    pub title: String,
    pub description: String,
    pub priority: String,
    pub icon: String,
}

/// The thresholds a study plan crossed: under half a video a day, over two
/// a day, load variance above 0.3, consistency below 0.7, weekend use below
/// 0.3.
#[derive(Clone, Copy, Debug, PartialEq, Eq, Structural)]
pub struct PlanSignals {
    pub slow_pace: bool,
    pub fast_pace: bool,
    pub uneven_load: bool,
    pub irregular_intervals: bool,
    pub weekends_unused: bool,
}

/// A suggestion's title, description, priority and icon.
pub open spec fn suggestion_view(s: OptimizationSuggestion) -> (Seq<char>, Seq<char>, Seq<char>, Seq<char>) {
    (s.title@, s.description@, s.priority@, s.icon@)
}

/// The suggestions for a plan's signals, in this order: pace (a slow pace
/// first, else a fast one), load balance, consistency, weekends. Without
/// an analysed plan, the two suggestions for getting started.
pub open spec fn suggestions_for(signals: Option<PlanSignals>) -> Seq<(Seq<char>, Seq<char>, Seq<char>, Seq<char>)> {
    match signals {
        None => seq![
            (
                "Start with Structured Learning"@,
                "Create your first study plan to get personalized recommendations"@,
                "High"@,
                "\u{1F680}"@,
            ),
            (
                "Enable Analytics Tracking"@,
                "Complete a few sessions to unlock detailed performance insights"@,
                "Medium"@,
                "\u{1F4CA}"@,
            ),
        ],
        Some(p) => (if p.slow_pace {
            seq![
                (
                    "Increase Study Frequency"@,
                    "Consider adding more sessions per week to maintain momentum"@,
                    "Medium"@,
                    "\u{1F4C8}"@,
                ),
            ]
        } else if p.fast_pace {
            seq![
                (
                    "Reduce Study Intensity"@,
                    "High velocity detected - consider longer sessions with fewer videos"@,
                    "Low"@,
                    "\u{26A1}"@,
                ),
            ]
        } else {
            seq![]
        }) + (if p.uneven_load {
            seq![
                (
                    "Improve Load Balance"@,
                    "Cognitive load varies significantly - enable load balancing"@,
                    "High"@,
                    "\u{2696}\u{FE0F}"@,
                ),
            ]
        } else {
            seq![]
        }) + (if p.irregular_intervals {
            seq![
                (
                    "Maintain Consistency"@,
                    "Try to keep more regular intervals between study sessions"@,
                    "Medium"@,
                    "\u{1F3AF}"@,
                ),
            ]
        } else {
            seq![]
        }) + (if p.weekends_unused {
            seq![
                (
                    "Utilize Weekends"@,
                    "Consider adding weekend sessions for faster progress"@,
                    "Low"@,
                    "\u{1F4C5}"@,
                ),
            ]
        } else {
            seq![]
        }),
    }
}

fn push_suggestion(
    v: &mut Vec<OptimizationSuggestion>,
    title: &str,
    description: &str,
    priority: &str,
    icon: &str,
)
    ensures
        final(v)@.map_values(|s: OptimizationSuggestion| suggestion_view(s)) == old(v)@.map_values(
            |s: OptimizationSuggestion| suggestion_view(s),
        ).push((title@, description@, priority@, icon@)),
{
    let ghost before = v@;
    v.push(
        OptimizationSuggestion {
            title: String::from_str(title),
            description: String::from_str(description),
            priority: String::from_str(priority),
            icon: String::from_str(icon),
        },
    );
    assert(v@.map_values(|s: OptimizationSuggestion| suggestion_view(s)) =~= before.map_values(
        |s: OptimizationSuggestion| suggestion_view(s),
    ).push((title@, description@, priority@, icon@)));
}

/// The study optimization suggestions of the recommendations panel.
pub fn optimization_suggestions(signals: Option<PlanSignals>) -> (r: Vec<OptimizationSuggestion>)
    ensures
        r@.map_values(|s: OptimizationSuggestion| suggestion_view(s)) == suggestions_for(signals),
{
    let mut r: Vec<OptimizationSuggestion> = Vec::new();
    match signals {
        None => {
            push_suggestion(
                &mut r,
                "Start with Structured Learning",
                "Create your first study plan to get personalized recommendations",
                "High",
                "\u{1F680}",
            );
            push_suggestion(
                &mut r,
                "Enable Analytics Tracking",
                "Complete a few sessions to unlock detailed performance insights",
                "Medium",
                "\u{1F4CA}",
            );
            assert(r@.map_values(|s: OptimizationSuggestion| suggestion_view(s)) =~= suggestions_for(
                signals,
            ));
        },
        Some(p) => {
            if p.slow_pace {
                push_suggestion(
                    &mut r,
                    "Increase Study Frequency",
                    "Consider adding more sessions per week to maintain momentum",
                    "Medium",
                    "\u{1F4C8}",
                );
            } else if p.fast_pace {
                push_suggestion(
                    &mut r,
                    "Reduce Study Intensity",
                    "High velocity detected - consider longer sessions with fewer videos",
                    "Low",
                    "\u{26A1}",
                );
            }
            if p.uneven_load {
                push_suggestion(
                    &mut r,
                    "Improve Load Balance",
                    "Cognitive load varies significantly - enable load balancing",
                    "High",
                    "\u{2696}\u{FE0F}",
                );
            }
            if p.irregular_intervals {
                push_suggestion(
                    &mut r,
                    "Maintain Consistency",
                    "Try to keep more regular intervals between study sessions",
                    "Medium",
                    "\u{1F3AF}",
                );
            }
            if p.weekends_unused {
                push_suggestion(
                    &mut r,
                    "Utilize Weekends",
                    "Consider adding weekend sessions for faster progress",
                    "Low",
                    "\u{1F4C5}",
                );
            }
            assert(r@.map_values(|s: OptimizationSuggestion| suggestion_view(s)) =~= suggestions_for(
                signals,
            ));
        },
    }
    r
}

/// The border style of a suggestion card by its priority.
pub fn priority_border(priority: &str) -> (r: &'static str)
    ensures
        priority@ == "High"@ ==> r@ == "border-l-error"@,
        priority@ == "Medium"@ ==> r@ == "border-l-warning"@,
        priority@ == "Low"@ ==> r@ == "border-l-info"@,
        priority@ != "High"@ && priority@ != "Medium"@ && priority@ != "Low"@ ==> r@
            == "border-l-primary"@,
{
    proof {
        reveal_strlit("High");
        reveal_strlit("Medium");
        reveal_strlit("Low");
        assert("High"@.len() != "Medium"@.len() && "High"@.len() != "Low"@.len() && "Medium"@.len()
            != "Low"@.len());
    }
    if str_equal(priority, "High") {
        "border-l-error"
    } else if str_equal(priority, "Medium") {
        "border-l-warning"
    } else if str_equal(priority, "Low") {
        "border-l-info"
    } else {
        "border-l-primary"
    }
}

/// Why a scheduling strategy was recommended, given the course's video
/// count and whether it is structured, if a course is known.
pub open spec fn rationale_for(strategy: DistributionStrategy, course: Option<(usize, bool)>) -> Seq<char> {
    match course {
        None => "General strategy recommendation based on user experience level"@,
        Some((videos, structured)) => match strategy {
            DistributionStrategy::SpacedRepetition =>
                "Recommended for beginners to optimize long-term retention through spaced intervals"@,
            DistributionStrategy::Adaptive if videos > 50 =>
                "Large course detected - adaptive scheduling will balance cognitive load dynamically"@,
            DistributionStrategy::ModuleBased if structured =>
                "Well-structured course - module-based approach respects content organization"@,
            DistributionStrategy::Hybrid =>
                "Balanced approach combining multiple strategies for optimal learning"@,
            _ => "Strategy selected based on course characteristics and user experience level"@,
        },
    }
}

/// Why a scheduling strategy was recommended.
pub fn strategy_rationale(strategy: DistributionStrategy, course: Option<(usize, bool)>) -> (r: &'static str)
    ensures
        r@ == rationale_for(strategy, course),
{
    match course {
        None => "General strategy recommendation based on user experience level",
        Some((videos, structured)) => match strategy {
            DistributionStrategy::SpacedRepetition =>
                "Recommended for beginners to optimize long-term retention through spaced intervals",
            DistributionStrategy::Adaptive if videos > 50 =>
                "Large course detected - adaptive scheduling will balance cognitive load dynamically",
            DistributionStrategy::ModuleBased if structured =>
                "Well-structured course - module-based approach respects content organization",
            DistributionStrategy::Hybrid =>
                "Balanced approach combining multiple strategies for optimal learning",
            _ => "Strategy selected based on course characteristics and user experience level",
        },
    }
}

/// The feature badges of scheduler settings, in this order: spaced
/// repetition, load balancing, adaptive pacing, difficulty adaptation;
/// each where its switch is on.
pub open spec fn feature_badges(s: AdvancedSchedulerSettings) -> Seq<Seq<char>> {
    (if s.spaced_repetition_enabled {
        seq!["Spaced Repetition"@]
    } else {
        seq![]
    }) + (if s.cognitive_load_balancing {
        seq!["Load Balancing"@]
    } else {
        seq![]
    }) + (if s.adaptive_pacing {
        seq!["Adaptive Pacing"@]
    } else {
        seq![]
    }) + (if s.difficulty_adaptation {
        seq!["Difficulty Adaptation"@]
    } else {
        seq![]
    })
}

/// The feature badges shown for scheduler settings.
pub fn enabled_features(settings: &AdvancedSchedulerSettings) -> (r: Vec<String>)
    ensures
        r@.map_values(|s: String| s@) == feature_badges(*settings),
{
    let mut r: Vec<String> = Vec::new();
    if settings.spaced_repetition_enabled {
        push_text(&mut r, "Spaced Repetition");
    }
    if settings.cognitive_load_balancing {
        push_text(&mut r, "Load Balancing");
    }
    if settings.adaptive_pacing {
        push_text(&mut r, "Adaptive Pacing");
    }
    if settings.difficulty_adaptation {
        push_text(&mut r, "Difficulty Adaptation");
    }
    assert(r@.map_values(|s: String| s@) =~= feature_badges(*settings));
    r
}

/// Whether entry `a` of a usage table is listed before entry `b`: more
/// uses first, and entries with as many uses in table order (a stable sort
/// by descending count).
pub open spec fn used_before(counts: Seq<usize>, a: usize, b: usize) -> bool {
    counts[a as int] > counts[b as int] || (counts[a as int] == counts[b as int] && a < b)
}

/// Whether positions are listed by descending use, each strictly before
/// the next.
pub open spec fn in_usage_order(counts: Seq<usize>, s: Seq<usize>) -> bool {
    forall|i: int, j: int| 0 <= i < j < s.len() ==> used_before(counts, #[trigger] s[i], #[trigger] s[j])
}

/// The order the usage charts list algorithms or strategies in: by
/// descending count, equal counts in table order. The result holds every
/// position of the table once.
pub fn usage_order(counts: &[usize]) -> (r: Vec<usize>)
    ensures
        in_usage_order(counts@, r@),
        forall|k: usize| r@.contains(k) <==> k < counts@.len(),
{
    let mut out: Vec<usize> = Vec::new();
    let mut k: usize = 0;
    while k < counts.len()
        invariant
            k <= counts@.len(),
            in_usage_order(counts@, out@),
            forall|x: usize| out@.contains(x) <==> x < k,
            forall|i: int| 0 <= i < out@.len() ==> #[trigger] out@[i] < k,
        decreases counts@.len() - k,
    {
        let mut j: usize = 0;
        while j < out.len() && !(counts[k] > counts[out[j]] || (counts[k] == counts[out[j]] && k < out[j]))
            invariant
                k < counts@.len(),
                j <= out@.len(),
                in_usage_order(counts@, out@),
                forall|x: usize| out@.contains(x) <==> x < k,
                forall|i: int| 0 <= i < out@.len() ==> #[trigger] out@[i] < k,
                forall|i: int| 0 <= i < j ==> used_before(counts@, #[trigger] out@[i], k),
            decreases out@.len() - j,
        {
            assert(out@.contains(out@[j as int]));
            j = j + 1;
        }
        let ghost before = out@;
        out.insert(j, k);
        proof {
            let after = out@;
            assert forall|a: int, b: int| 0 <= a < b < after.len() implies used_before(
                counts@,
                #[trigger] after[a],
                #[trigger] after[b],
            ) by {
                if b < j {
                    assert(after[a] == before[a] && after[b] == before[b]);
                } else if b == j {
                    assert(after[a] == before[a]);
                } else if a > j {
                    assert(after[a] == before[a - 1] && after[b] == before[b - 1]);
                } else if a == j {
                    assert(after[b] == before[b - 1]);
                    assert(before.contains(before[b - 1]));
                } else {
                    assert(after[a] == before[a] && after[b] == before[b - 1]);
                    assert(before.contains(before[b - 1]));
                    assert(used_before(counts@, before[a], k));
                }
            }
            assert forall|x: usize| after.contains(x) <==> x < k + 1 by {
                if after.contains(x) {
                    let i = choose|i: int| 0 <= i < after.len() && after[i] == x;
                    if i < j {
                        assert(before[i] == x);
                        assert(before.contains(x));
                    } else if i > j {
                        assert(before[i - 1] == x);
                        assert(before.contains(x));
                    }
                }
                if x < k + 1 {
                    if x == k {
                        assert(after[j as int] == x);
                    } else {
                        assert(before.contains(x));
                        let i = choose|i: int| 0 <= i < before.len() && before[i] == x;
                        if i < j {
                            assert(after[i] == x);
                        } else {
                            assert(after[i + 1] == x);
                        }
                    }
                }
            }
            assert forall|i: int| 0 <= i < after.len() implies #[trigger] after[i] < k + 1 by {
                if i < j {
                    assert(after[i] == before[i]);
                } else if i > j {
                    assert(after[i] == before[i - 1]);
                }
            }
        }
        k = k + 1;
    }
    out
}

/// The session load counts of the cognitive load view, summed over plans
/// given as (overloaded, underloaded) pairs: overloaded, balanced and
/// underloaded. Balanced is what the sessions counted leave after the
/// overloaded and underloaded ones, and the sessions counted are exactly
/// those two kinds, so it is always zero.
pub open spec fn load_totals(loads: Seq<(usize, usize)>) -> (nat, nat)
    decreases loads.len(),
{
    if loads.len() == 0 {
        (0, 0)
    } else {
        let t = load_totals(loads.drop_last());
        (t.0 + loads.last().0 as nat, t.1 + loads.last().1 as nat)
    }
}

proof fn lemma_load_totals_prefix(loads: Seq<(usize, usize)>, k: int)
    requires
        0 <= k <= loads.len(),
    ensures
        load_totals(loads.take(k)).0 <= load_totals(loads).0,
        load_totals(loads.take(k)).1 <= load_totals(loads).1,
    decreases loads.len() - k,
{
    if k < loads.len() {
        lemma_load_totals_prefix(loads, k + 1);
        assert(loads.take(k + 1).drop_last() =~= loads.take(k));
    } else {
        assert(loads.take(k) =~= loads);
    }
}

/// The overloaded, balanced and underloaded session counts of the
/// cognitive load view; every sum must fit in a `usize`.
pub fn session_load_counts(loads: &[(usize, usize)]) -> (r: (usize, usize, usize))
    requires
        load_totals(loads@).0 + load_totals(loads@).1 <= usize::MAX,
    ensures
        r.0 == load_totals(loads@).0,
        r.1 == 0,
        r.2 == load_totals(loads@).1,
{
    let mut over: usize = 0;
    let mut under: usize = 0;
    let mut total: usize = 0;
    let mut i: usize = 0;
    while i < loads.len()
        invariant
            i <= loads@.len(),
            load_totals(loads@).0 + load_totals(loads@).1 <= usize::MAX,
            over == load_totals(loads@.take(i as int)).0,
            under == load_totals(loads@.take(i as int)).1,
            total == over + under,
        decreases loads@.len() - i,
    {
        proof {
            lemma_load_totals_prefix(loads@, i + 1);
            assert(loads@.take(i + 1).drop_last() =~= loads@.take(i as int));
        }
        let (o, u) = loads[i];
        over = over + o;
        under = under + u;
        total = total + o + u;
        i = i + 1;
    }
    assert(loads@.take(i as int) =~= loads@);
    let balanced = if total >= over + under {
        total - (over + under)
    } else {
        0
    };
    (over, balanced, under)
}

/// A pacing card: title, description, rationale and icon.
#[derive(Clone, Debug, PartialEq)]
pub struct PacingRecommendation {
    pub title: String,
    pub description: String,
    pub rationale: String,
    pub icon: String,
}

/// A pacing card's title, description, rationale and icon.
pub open spec fn pacing_view(p: PacingRecommendation) -> (Seq<char>, Seq<char>, Seq<char>, Seq<char>) {
    (p.title@, p.description@, p.rationale@, p.icon@)
}

/// The two pacing cards for an experience level.
pub open spec fn pacing_for(level: DifficultyLevel) -> Seq<(Seq<char>, Seq<char>, Seq<char>, Seq<char>)> {
    match level {
        DifficultyLevel::Beginner => seq![
            (
                "Start Slowly"@,
                "Begin with 2-3 sessions per week, 30-45 minutes each"@,
                "Builds sustainable learning habits without overwhelming"@,
                "\u{1F40C}"@,
            ),
            (
                "Focus on Retention"@,
                "Enable spaced repetition for better long-term memory"@,
                "Beginners benefit most from repeated exposure to concepts"@,
                "\u{1F9E0}"@,
            ),
        ],
        DifficultyLevel::Intermediate => seq![
            (
                "Balanced Approach"@,
                "3-4 sessions per week with moderate cognitive load"@,
                "Optimal balance between progress and comprehension"@,
                "\u{2696}\u{FE0F}"@,
            ),
            (
                "Progressive Difficulty"@,
                "Gradually increase session complexity over time"@,
                "Builds confidence while maintaining appropriate challenge"@,
                "\u{1F4C8}"@,
            ),
        ],
        DifficultyLevel::Advanced => seq![
            (
                "Intensive Learning"@,
                "4-5 sessions per week with higher cognitive load"@,
                "Advanced learners can handle more intensive schedules"@,
                "\u{1F680}"@,
            ),
            (
                "Challenge Prioritization"@,
                "Focus on difficult content first when energy is highest"@,
                "Maximizes learning efficiency for complex topics"@,
                "\u{1F3AF}"@,
            ),
        ],
        DifficultyLevel::Expert => seq![
            (
                "Efficient Mastery"@,
                "Fewer but longer sessions with maximum content density"@,
                "Experts can process information more efficiently"@,
                "\u{26A1}"@,
            ),
            (
                "Self-Directed Learning"@,
                "Adaptive pacing based on real-time comprehension"@,
                "Expert learners benefit from flexible, responsive scheduling"@,
                "\u{1F39B}\u{FE0F}"@,
            ),
        ],
    }
}

fn pacing(title: &str, description: &str, rationale: &str, icon: &str) -> (r: PacingRecommendation)
    ensures
        pacing_view(r) == (title@, description@, rationale@, icon@),
{
    PacingRecommendation {
        title: String::from_str(title),
        description: String::from_str(description),
        rationale: String::from_str(rationale),
        icon: String::from_str(icon),
    }
}

/// The pacing cards for an experience level.
pub fn pacing_recommendations(level: DifficultyLevel) -> (r: Vec<PacingRecommendation>)
    ensures
        r@.map_values(|p: PacingRecommendation| pacing_view(p)) == pacing_for(level),
{
    let r = match level {
        DifficultyLevel::Beginner => vec![
            pacing(
                "Start Slowly",
                "Begin with 2-3 sessions per week, 30-45 minutes each",
                "Builds sustainable learning habits without overwhelming",
                "\u{1F40C}",
            ),
            pacing(
                "Focus on Retention",
                "Enable spaced repetition for better long-term memory",
                "Beginners benefit most from repeated exposure to concepts",
                "\u{1F9E0}",
            ),
        ],
        DifficultyLevel::Intermediate => vec![
            pacing(
                "Balanced Approach",
                "3-4 sessions per week with moderate cognitive load",
                "Optimal balance between progress and comprehension",
                "\u{2696}\u{FE0F}",
            ),
            pacing(
                "Progressive Difficulty",
                "Gradually increase session complexity over time",
                "Builds confidence while maintaining appropriate challenge",
                "\u{1F4C8}",
            ),
        ],
        DifficultyLevel::Advanced => vec![
            pacing(
                "Intensive Learning",
                "4-5 sessions per week with higher cognitive load",
                "Advanced learners can handle more intensive schedules",
                "\u{1F680}",
            ),
            pacing(
                "Challenge Prioritization",
                "Focus on difficult content first when energy is highest",
                "Maximizes learning efficiency for complex topics",
                "\u{1F3AF}",
            ),
        ],
        DifficultyLevel::Expert => vec![
            pacing(
                "Efficient Mastery",
                "Fewer but longer sessions with maximum content density",
                "Experts can process information more efficiently",
                "\u{26A1}",
            ),
            pacing(
                "Self-Directed Learning",
                "Adaptive pacing based on real-time comprehension",
                "Expert learners benefit from flexible, responsive scheduling",
                "\u{1F39B}\u{FE0F}",
            ),
        ],
    };
    assert(r@.map_values(|p: PacingRecommendation| pacing_view(p)) =~= pacing_for(level));
    r
}

} // verus!
