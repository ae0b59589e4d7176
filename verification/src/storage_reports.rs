//! Reports about the database: query advice, health, maintenance plans,
//! and the records of pools, migrations, activity and search.
use vstd::prelude::*;
use crate::course::str_equal;
use crate::ids::{Uuid, uuid_parse};
use crate::text::{ascii_lower_char, is_ascii_text, 
    contains_seq, contains_str, push_signed_decimal, push_str_to, signed_decimal, to_lowercase_str,
    unicode_lowercase,
};
use crate::time::{UtcDateTime, parse_rfc3339, rfc3339_instant};

verus! {

/// Advice on a query.
#[derive(Clone, Debug, PartialEq)]
pub struct QueryAnalysis {
    pub query: String,
    pub estimated_cost: u32,
    pub suggestions: Vec<String>,
    pub uses_index: bool,
}

/// The advice given for a query; `q` is the query, `l` its lower-cased
/// form. Each pattern found adds its suggestion (in this order) and cost.
pub open spec fn query_advice(q: Seq<char>, l: Seq<char>) -> (Seq<Seq<char>>, nat, bool) {
    let no_where = !contains_seq(l, "where"@) && contains_seq(l, "select"@);
    let limit_unordered = contains_seq(l, "limit"@) && !contains_seq(l, "order by"@);
    let parameterised = contains_seq(l, "select"@) && contains_seq(q, "?"@);
    let leading_wildcard = contains_seq(l, "like '%"@);
    let s1: Seq<Seq<char>> = if no_where {
        seq!["Consider adding WHERE clause to limit results"@]
    } else {
        seq![]
    };
    let s2: Seq<Seq<char>> = if limit_unordered {
        seq!["Consider adding ORDER BY clause with LIMIT for consistent results"@]
    } else {
        seq![]
    };
    let s3: Seq<Seq<char>> = if parameterised {
        seq!["Consider using JOIN instead of multiple queries"@]
    } else {
        seq![]
    };
    let s4: Seq<Seq<char>> = if leading_wildcard {
        seq!["LIKE queries starting with % may cause full table scans"@]
    } else {
        seq![]
    };
    let cost = 1 + (if no_where { 2nat } else { 0nat }) + (if parameterised { 1nat } else { 0nat })
        + (if leading_wildcard { 3nat } else { 0nat });
    (s1 + s2 + s3 + s4, cost, contains_seq(l, "where"@) && !leading_wildcard)
}

fn push_suggestion(v: &mut Vec<String>, s: &str)
    ensures
        final(v)@.map_values(|x: String| x@) == old(v)@.map_values(|x: String| x@).push(s@),
{
    let ghost before = v@;
    v.push(String::from_str(s));
    assert(v@.map_values(|x: String| x@) =~= before.map_values(|x: String| x@).push(s@));
}

/// Looks for query patterns that tend to be slow and estimates a cost:
/// no WHERE in a SELECT, LIMIT without ORDER BY, parameters in a SELECT,
/// and LIKE patterns starting with '%'. Patterns are matched on the
/// lower-cased query (the '?' on the query itself).
pub fn analyze_query_performance(query: &str) -> (a: QueryAnalysis)
    ensures
        a.query@ == query@,
        (a.suggestions@.map_values(|x: String| x@), a.estimated_cost as nat, a.uses_index)
            == query_advice(query@, unicode_lowercase(query@)),
        is_ascii_text(query@) ==> (a.suggestions@.map_values(|x: String| x@), a.estimated_cost as nat, a.uses_index)
            == query_advice(query@, query@.map_values(|c: char| ascii_lower_char(c))),
{
    let lower = to_lowercase_str(query);
    let l = lower.as_str();
    let has_where = contains_str(l, "where");
    let has_select = contains_str(l, "select");
    let has_limit = contains_str(l, "limit");
    let has_order = contains_str(l, "order by");
    let has_param = contains_str(query, "?");
    let has_wildcard = contains_str(l, "like '%");
    let mut suggestions: Vec<String> = Vec::new();
    let mut estimated_cost: u32 = 1;
    if !has_where && has_select {
        push_suggestion(&mut suggestions, "Consider adding WHERE clause to limit results");
        estimated_cost = estimated_cost + 2;
    }
    if has_limit && !has_order {
        push_suggestion(
            &mut suggestions,
            "Consider adding ORDER BY clause with LIMIT for consistent results",
        );
    }
    if has_select && has_param {
        push_suggestion(&mut suggestions, "Consider using JOIN instead of multiple queries");
        estimated_cost = estimated_cost + 1;
    }
    if has_wildcard {
        push_suggestion(&mut suggestions, "LIKE queries starting with % may cause full table scans");
        estimated_cost = estimated_cost + 3;
    }
    let ghost advice = query_advice(query@, unicode_lowercase(query@));
    assert(suggestions@.map_values(|x: String| x@) =~= advice.0);
    QueryAnalysis {
        query: String::from_str(query),
        estimated_cost,
        suggestions,
        uses_index: has_where && !has_wildcard,
    }
}

/// Overall health of the database.
#[derive(Clone, Copy, Debug, PartialEq, Eq, Structural)]
pub enum HealthStatus {
    Good,
    Fair,
    Poor,
}

/// The health for a number of warnings and recommendations: good with no
/// warning and at most one recommendation, fair with at most one warning,
/// poor otherwise.
pub open spec fn health_for(warnings: nat, recommendations: nat) -> HealthStatus {
    if warnings == 0 && recommendations < 2 {
        HealthStatus::Good
    } else if warnings < 2 {
        HealthStatus::Fair
    } else {
        HealthStatus::Poor
    }
}

/// Classifies health from the numbers of warnings and recommendations.
pub fn classify_health(warnings: usize, recommendations: usize) -> (h: HealthStatus)
    ensures
        h == health_for(warnings as nat, recommendations as nat),
{
    if warnings == 0 && recommendations < 2 {
        HealthStatus::Good
    } else if warnings < 2 {
        HealthStatus::Fair
    } else {
        HealthStatus::Poor
    }
}

/// A rank of health, worse is higher.
pub open spec fn health_rank(h: HealthStatus) -> nat {
    match h {
        HealthStatus::Good => 0,
        HealthStatus::Fair => 1,
        HealthStatus::Poor => 2,
    }
}

/// More findings never make the health better.
pub proof fn lemma_health_monotone(w1: nat, r1: nat, w2: nat, r2: nat)
    requires
        w1 <= w2,
        r1 <= r2,
    ensures
        health_rank(health_for(w1, r1)) <= health_rank(health_for(w2, r2)),
{
}

/// What a health check found: recommendations and warnings, in order.
#[derive(Clone, Debug, PartialEq)]
pub struct HealthFindings {
    pub recommendations: Vec<String>,
    pub warnings: Vec<String>,
    pub overall_health: HealthStatus,
}

/// The measurements a health check looks at. The two ratios are compared
/// with their thresholds by the caller (fragmentation above 15 %, pool use
/// above 80 %).
pub struct HealthInputs {
    pub total_size_bytes: usize,
    pub high_fragmentation: bool,
    pub high_pool_utilization: bool,
    pub notes_count: usize,
    pub custom_index_count: i64,
}

/// The recommendations and warnings of a health check.
pub open spec fn health_lists(i: HealthInputs) -> (Seq<Seq<char>>, Seq<Seq<char>>) {
    let r1: Seq<Seq<char>> = if i.total_size_bytes > 100_000_000 {
        seq!["Consider archiving old data to reduce database size"@]
    } else {
        seq![]
    };
    let r2: Seq<Seq<char>> = if i.high_fragmentation {
        seq!["High fragmentation detected, consider running VACUUM"@]
    } else {
        seq![]
    };
    let r3: Seq<Seq<char>> = if i.notes_count > 10000 {
        seq!["Large number of notes, consider implementing note archiving"@]
    } else {
        seq![]
    };
    let w1: Seq<Seq<char>> = if i.high_pool_utilization {
        seq!["High connection pool utilization, consider increasing pool size"@]
    } else {
        seq![]
    };
    let w2: Seq<Seq<char>> = if i.custom_index_count < 5 {
        seq!["Few custom indexes found, query performance may be suboptimal"@]
    } else {
        seq![]
    };
    (r1 + r2 + r3, w1 + w2)
}

/// Collects the findings of a health check and rates the database.
pub fn check_health(inputs: &HealthInputs) -> (f: HealthFindings)
    ensures
        (f.recommendations@.map_values(|x: String| x@), f.warnings@.map_values(|x: String| x@))
            == health_lists(*inputs),
        f.overall_health == health_for(f.warnings@.len(), f.recommendations@.len()),
{
    let mut recommendations: Vec<String> = Vec::new();
    let mut warnings: Vec<String> = Vec::new();
    if inputs.total_size_bytes > 100_000_000 {
        push_suggestion(&mut recommendations, "Consider archiving old data to reduce database size");
    }
    if inputs.high_fragmentation {
        push_suggestion(&mut recommendations, "High fragmentation detected, consider running VACUUM");
    }
    if inputs.high_pool_utilization {
        push_suggestion(
            &mut warnings,
            "High connection pool utilization, consider increasing pool size",
        );
    }
    if inputs.notes_count > 10000 {
        push_suggestion(
            &mut recommendations,
            "Large number of notes, consider implementing note archiving",
        );
    }
    if inputs.custom_index_count < 5 {
        push_suggestion(
            &mut warnings,
            "Few custom indexes found, query performance may be suboptimal",
        );
    }
    let ghost lists = health_lists(*inputs);
    assert(recommendations@.map_values(|x: String| x@) =~= lists.0);
    assert(warnings@.map_values(|x: String| x@) =~= lists.1);
    let overall_health = classify_health(warnings.len(), recommendations.len());
    HealthFindings { recommendations, warnings, overall_health }
}

/// A maintenance plan: how often, which operations, and how long.
#[derive(Clone, Debug, PartialEq)]
pub struct MaintenancePlan {
    pub frequency_days: i64,
    pub operations: Vec<String>,
    pub estimated_duration_minutes: u32,
}

/// The plan for a number of stored records: monthly for under a thousand,
/// fortnightly for under ten thousand, weekly beyond.
pub open spec fn maintenance_for(total_records: nat) -> (int, Seq<Seq<char>>, nat) {
    if total_records < 1000 {
        (30, seq!["Update statistics"@, "Check integrity"@], 1)
    } else if total_records < 10000 {
        (14, seq!["Update statistics"@, "Clean up old data"@, "Check fragmentation"@], 5)
    } else {
        (
            7,
            seq![
                "Update statistics"@,
                "Clean up old data"@,
                "Rebuild indexes"@,
                "Vacuum if needed"@,
            ],
            15,
        )
    }
}

/// Plans maintenance from the number of courses, plans and notes; the
/// total must fit in a `usize`.
pub fn maintenance_plan(courses: usize, plans: usize, notes: usize) -> (p: MaintenancePlan)
    requires
        courses + plans + notes <= usize::MAX,
    ensures
        (p.frequency_days as int, p.operations@.map_values(|x: String| x@),
            p.estimated_duration_minutes as nat) == maintenance_for((courses + plans + notes) as nat),
{
    let total = courses + plans + notes;
    let mut operations: Vec<String> = Vec::new();
    push_suggestion(&mut operations, "Update statistics");
    let (frequency_days, estimated): (i64, u32) = if total < 1000 {
        push_suggestion(&mut operations, "Check integrity");
        (30, 1)
    } else if total < 10000 {
        push_suggestion(&mut operations, "Clean up old data");
        push_suggestion(&mut operations, "Check fragmentation");
        (14, 5)
    } else {
        push_suggestion(&mut operations, "Clean up old data");
        push_suggestion(&mut operations, "Rebuild indexes");
        push_suggestion(&mut operations, "Vacuum if needed");
        (7, 15)
    };
    let ghost plan = maintenance_for(total as nat);
    assert(operations@.map_values(|x: String| x@) =~= plan.1);
    MaintenancePlan { frequency_days, operations, estimated_duration_minutes: estimated }
}

/// Health of the connection pool.
#[derive(Clone, Copy, Debug, PartialEq, Eq, Structural)]
pub struct ConnectionPoolHealth {
    pub total_connections: u32,
    pub idle_connections: u32,
    pub active_connections: u32,
    pub is_healthy: bool,
    pub max_connections: u32,
}

impl ConnectionPoolHealth {
    /// The health record for a pool's counts (idle connections are among
    /// the pool's connections) and whether a test connection succeeded; the
    /// pool allows ten connections.
    pub fn from_pool_state(connections: u32, idle_connections: u32, test_succeeded: bool) -> (h:
        ConnectionPoolHealth)
        requires
            idle_connections <= connections,
        ensures
            h.total_connections == connections,
            h.idle_connections == idle_connections,
            h.active_connections == connections - idle_connections,
            h.is_healthy == test_succeeded,
            h.max_connections == 10,
    {
        ConnectionPoolHealth {
            total_connections: connections,
            idle_connections,
            active_connections: connections - idle_connections,
            is_healthy: test_succeeded,
            max_connections: 10,
        }
    }
}

/// The result of validating the database after migrations.
#[derive(Clone, Debug, PartialEq)]
pub struct ValidationReport {
    pub is_valid: bool,
    pub issues: Vec<String>,
    pub warnings: Vec<String>,
}

/// Kinds of recent activity.
#[derive(Clone, Copy, Debug, PartialEq, Eq, Structural)]
pub enum ActivityType {
    Course,
    Plan,
    Note,
}

/// Kinds of search results.
#[derive(Clone, Copy, Debug, PartialEq, Eq, Structural)]
pub enum SearchResultType {
    Course,
    Note,
}

/// How many clustered courses fall in each quality band: excellent (0.8
/// and above), good (0.6 to 0.8), fair (0.4 to 0.6) and poor (below 0.4).
#[derive(Clone, Copy, Debug, PartialEq, Eq, Structural)]
pub struct QualityDistribution {
    pub excellent: usize,
    pub good: usize,
    pub fair: usize,
    pub poor: usize,
}

/// The foreign keys whose columns should be indexed: plans by course,
/// notes by course and by video.
pub open spec fn foreign_keys() -> Seq<(Seq<char>, Seq<char>)> {
    seq![("plans"@, "course_id"@), ("notes"@, "course_id"@), ("notes"@, "video_id"@)]
}

/// The foreign keys whose columns should be indexed, as (table, column).
pub fn foreign_key_columns() -> (r: Vec<(&'static str, &'static str)>)
    ensures
        r@.map_values(|p: (&'static str, &'static str)| (p.0@, p.1@)) == foreign_keys(),
{
    let r = vec![("plans", "course_id"), ("notes", "course_id"), ("notes", "video_id")];
    assert(r@.map_values(|p: (&'static str, &'static str)| (p.0@, p.1@)) =~= foreign_keys());
    r
}

/// The warning for a foreign key column without an index.
pub fn missing_index_warning(table: &str, column: &str) -> (r: String)
    ensures
        r@ == "Missing index on foreign key "@ + table@ + "."@ + column@,
{
    let mut m = String::from_str("Missing index on foreign key ");
    push_str_to(&mut m, table);
    push_str_to(&mut m, ".");
    push_str_to(&mut m, column);
    m
}

/// The warning for a table with fewer than two indexes, or `None`.
pub fn index_count_warning(table: &str, index_count: i64) -> (r: Option<String>)
    ensures
        index_count >= 2 ==> r is None,
        index_count < 2 ==> (r matches Some(m) && m@ == "Table '"@ + table@ + "' has only "@
            + signed_decimal(index_count as int)
            + " indexes - consider adding more for better performance"@),
{
    if index_count >= 2 {
        None
    } else {
        let mut m = String::from_str("Table '");
        push_str_to(&mut m, table);
        push_str_to(&mut m, "' has only ");
        push_signed_decimal(&mut m, index_count);
        push_str_to(&mut m, " indexes - consider adding more for better performance");
        Some(m)
    }
}

/// The warning when the query planner has no statistics.
pub fn missing_statistics_warning() -> (r: &'static str)
    ensures
        r@ == "Database statistics are missing - run ANALYZE for better query performance"@,
{
    "Database statistics are missing - run ANALYZE for better query performance"
}

/// The issue text of a foreign key violation in a table.
pub fn foreign_key_violation(table: &str, detail: &str) -> (r: String)
    ensures
        r@ == "Foreign key violation in table "@ + table@ + ": "@ + detail@,
{
    let mut m = String::from_str("Foreign key violation in table ");
    push_str_to(&mut m, table);
    push_str_to(&mut m, ": ");
    push_str_to(&mut m, detail);
    m
}

/// The report on a migrated database: valid when the integrity check
/// answers "ok" and no foreign key is violated; the failed integrity check
/// and the violations are its issues, the index and statistics findings
/// its warnings.
pub fn validation_report(
    integrity_answer: &str,
    violations: Vec<String>,
    index_warnings: Vec<String>,
    statistics_warnings: Vec<String>,
) -> (r: ValidationReport)
    ensures
        r.is_valid == (integrity_answer@ == "ok"@ && violations@.len() == 0),
        r.issues@.map_values(|x: String| x@) == (if integrity_answer@ == "ok"@ {
            seq![]
        } else {
            seq!["Database integrity check failed: "@ + integrity_answer@]
        }) + violations@.map_values(|x: String| x@),
        r.warnings@.map_values(|x: String| x@) == index_warnings@.map_values(|x: String| x@)
            + statistics_warnings@.map_values(|x: String| x@),
{
    let mut issues: Vec<String> = Vec::new();
    let integrity_ok = str_equal(integrity_answer, "ok");
    if !integrity_ok {
        let mut m = String::from_str("Database integrity check failed: ");
        push_str_to(&mut m, integrity_answer);
        issues.push(m);
    }
    let ghost first = issues@.map_values(|x: String| x@);
    let no_violations = violations.len() == 0;
    let mut violations = violations;
    let ghost vs = violations@.map_values(|x: String| x@);
    issues.append(&mut violations);
    assert(issues@.map_values(|x: String| x@) =~= first + vs);
    let mut warnings = index_warnings;
    let ghost ws = warnings@.map_values(|x: String| x@);
    let mut stats = statistics_warnings;
    let ghost ss = stats@.map_values(|x: String| x@);
    warnings.append(&mut stats);
    assert(warnings@.map_values(|x: String| x@) =~= ws + ss);
    ValidationReport { is_valid: integrity_ok && no_violations, issues, warnings }
}

/// One entry of the recent activity list.
#[derive(Clone, Debug, PartialEq)]
pub struct ActivityItem {
    pub activity_type: ActivityType,
    pub id: Uuid,
    pub title: String,
    pub created_at: UtcDateTime,
    pub course_id: Option<Uuid>,
}

/// One hit of the search over courses and notes.
#[derive(Clone, Debug, PartialEq)]
pub struct SearchResult {
    pub result_type: SearchResultType,
    pub id: Uuid,
    pub title: String,
    pub content: String,
    pub created_at: UtcDateTime,
    pub course_id: Option<Uuid>,
}

/// The column of a row that could not be read.
#[derive(Clone, Copy, Debug, PartialEq, Eq, Structural)]
pub struct BadColumn {
    pub column: usize,
}

/// The kind an activity row names: "plan" and "note", and a course for
/// anything else.
pub open spec fn activity_kind(kind: Seq<char>) -> ActivityType {
    if kind == "plan"@ {
        ActivityType::Plan
    } else if kind == "note"@ {
        ActivityType::Note
    } else {
        ActivityType::Course
    }
}

/// The kind a search row names: "note", and a course for anything else.
pub open spec fn result_kind(kind: Seq<char>) -> SearchResultType {
    if kind == "note"@ {
        SearchResultType::Note
    } else {
        SearchResultType::Course
    }
}

fn read_optional_uuid(s: &Option<String>, column: usize) -> (r: Result<Option<Uuid>, BadColumn>)
    ensures
        match s {
            None => r == Ok::<Option<Uuid>, BadColumn>(None),
            Some(t) => match uuid_parse(t@) {
                Some(v) => r == Ok::<Option<Uuid>, BadColumn>(Some(Uuid { value: v })),
                None => r == Err::<Option<Uuid>, BadColumn>(BadColumn { column }),
            },
        },
{
    match s {
        None => Ok(None),
        Some(t) => match Uuid::parse_str(t.as_str()) {
            Some(u) => Ok(Some(u)),
            None => Err(BadColumn { column }),
        },
    }
}

/// Reads an activity row: kind, id (column 1), title, creation instant
/// (column 3) and course id (column 4). The first unreadable column, in
/// column order, is reported.
pub fn activity_from_row(
    kind: &str,
    id: &str,
    title: String,
    created_at: &str,
    course_id: Option<String>,
) -> (r: Result<ActivityItem, BadColumn>)
    ensures
        uuid_parse(id@) is None ==> r == Err::<ActivityItem, BadColumn>(BadColumn { column: 1 }),
        uuid_parse(id@) is Some && rfc3339_instant(created_at@) is None ==> r == Err::<
            ActivityItem,
            BadColumn,
        >(BadColumn { column: 3 }),
        uuid_parse(id@) is Some && rfc3339_instant(created_at@) is Some && (course_id matches Some(
            c,
        ) && uuid_parse(c@) is None) ==> r == Err::<ActivityItem, BadColumn>(BadColumn { column: 4 }),
        r matches Ok(a) ==> {
            &&& a.activity_type == activity_kind(kind@)
            &&& uuid_parse(id@) == Some(a.id.value)
            &&& a.title == title
            &&& rfc3339_instant(created_at@) == Some((a.created_at.secs, a.created_at.nanos))
            &&& match course_id {
                None => a.course_id is None,
                Some(c) => a.course_id matches Some(u) && uuid_parse(c@) == Some(u.value),
            }
        },
        (uuid_parse(id@) is Some && rfc3339_instant(created_at@) is Some && !(course_id matches Some(
            c,
        ) && uuid_parse(c@) is None)) ==> r is Ok,
{
    proof {
        reveal_strlit("plan");
        reveal_strlit("note");
        assert("plan"@ != "note"@) by {
            assert("plan"@[0] != "note"@[0]);
        }
    }
    let activity_type = if str_equal(kind, "plan") {
        ActivityType::Plan
    } else if str_equal(kind, "note") {
        ActivityType::Note
    } else {
        ActivityType::Course
    };
    let id = match Uuid::parse_str(id) {
        Some(u) => u,
        None => return Err(BadColumn { column: 1 }),
    };
    let created_at = match parse_rfc3339(created_at) {
        Some(d) => d,
        None => return Err(BadColumn { column: 3 }),
    };
    let course_id = match read_optional_uuid(&course_id, 4) {
        Ok(c) => c,
        Err(e) => return Err(e),
    };
    Ok(ActivityItem { activity_type, id, title, created_at, course_id })
}

/// Reads a search row: kind, id (column 1), title, content, creation
/// instant (column 4) and course id (column 5). The first unreadable
/// column, in column order, is reported.
pub fn search_result_from_row(
    kind: &str,
    id: &str,
    title: String,
    content: String,
    created_at: &str,
    course_id: Option<String>,
) -> (r: Result<SearchResult, BadColumn>)
    ensures
        uuid_parse(id@) is None ==> r == Err::<SearchResult, BadColumn>(BadColumn { column: 1 }),
        uuid_parse(id@) is Some && rfc3339_instant(created_at@) is None ==> r == Err::<
            SearchResult,
            BadColumn,
        >(BadColumn { column: 4 }),
        uuid_parse(id@) is Some && rfc3339_instant(created_at@) is Some && (course_id matches Some(
            c,
        ) && uuid_parse(c@) is None) ==> r == Err::<SearchResult, BadColumn>(BadColumn { column: 5 }),
        r matches Ok(a) ==> {
            &&& a.result_type == result_kind(kind@)
            &&& uuid_parse(id@) == Some(a.id.value)
            &&& a.title == title
            &&& a.content == content
            &&& rfc3339_instant(created_at@) == Some((a.created_at.secs, a.created_at.nanos))
            &&& match course_id {
                None => a.course_id is None,
                Some(c) => a.course_id matches Some(u) && uuid_parse(c@) == Some(u.value),
            }
        },
        (uuid_parse(id@) is Some && rfc3339_instant(created_at@) is Some && !(course_id matches Some(
            c,
        ) && uuid_parse(c@) is None)) ==> r is Ok,
{
    let result_type = if str_equal(kind, "note") {
        SearchResultType::Note
    } else {
        SearchResultType::Course
    };
    let id = match Uuid::parse_str(id) {
        Some(u) => u,
        None => return Err(BadColumn { column: 1 }),
    };
    let created_at = match parse_rfc3339(created_at) {
        Some(d) => d,
        None => return Err(BadColumn { column: 4 }),
    };
    let course_id = match read_optional_uuid(&course_id, 5) {
        Ok(c) => c,
        Err(e) => return Err(e),
    };
    Ok(SearchResult { result_type, id, title, content, created_at, course_id })
}

} // verus!
