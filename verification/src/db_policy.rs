//! The decisions around database work that the caller carries out: when a
//! failed operation is tried again and after how long, when indexes are
//! rebuilt, how an integrity check is judged, and what a maintenance run
//! reports for each of its steps.
use vstd::prelude::*;
use crate::course::str_equal;
use crate::text::push_str_to;

verus! {

/// Attempts made at a database operation before giving up.
pub const MAX_RETRIES: u32 = 3;

/// Wait before the first retry, in milliseconds; it doubles each time.
pub const INITIAL_DELAY_MS: u64 = 100;

/// Clustering feedback older than this many days may be pruned.
pub const FEEDBACK_RETENTION_DAYS: i64 = 365;

/// Pruning never touches this many of the newest clustering feedback rows.
pub const FEEDBACK_KEPT_NEWEST: i64 = 1000;

/// A/B test results older than this many days are removed.
pub const AB_RESULT_RETENTION_DAYS: i64 = 180;

/// What follows a failed attempt.
#[derive(Clone, Copy, Debug, PartialEq, Eq, Structural)]
pub enum RetryStep {
    /// Wait this many milliseconds, then try again.
    RetryAfter(u64),
    /// No attempt is left: report the last error.
    GiveUp,
}

/// Two to the power `n`.
pub open spec fn pow2(n: nat) -> nat
    decreases n,
{
    if n == 0 {
        1
    } else {
        2 * pow2((n - 1) as nat)
    }
}

/// What follows the failure of attempt `attempt` (counted from zero): a
/// retry after 100 ms doubled per earlier attempt while attempts are left,
/// else giving up.
pub open spec fn step_after_failure(attempt: nat) -> RetryStep {
    if attempt + 1 < MAX_RETRIES {
        RetryStep::RetryAfter((INITIAL_DELAY_MS * pow2(attempt)) as u64)
    } else {
        RetryStep::GiveUp
    }
}

/// What follows the failure of attempt `attempt`, counted from zero.
pub fn after_failure(attempt: u32) -> (r: RetryStep)
    requires
        attempt < MAX_RETRIES,
    ensures
        r == step_after_failure(attempt as nat),
{
    if attempt + 1 < MAX_RETRIES {
        let mut delay: u64 = INITIAL_DELAY_MS;
        let mut k: u32 = 0;
        while k < attempt
            invariant
                k <= attempt,
                attempt + 1 < MAX_RETRIES,
                delay == INITIAL_DELAY_MS * pow2(k as nat),
            decreases attempt - k,
        {
            delay = delay * 2;
            k = k + 1;
        }
        RetryStep::RetryAfter(delay)
    } else {
        RetryStep::GiveUp
    }
}

/// The waits of a failing operation: 100 ms after the first failure, 200 ms
/// after the second, and the third ends the tries.
pub proof fn lemma_retry_schedule()
    ensures
        step_after_failure(0) == RetryStep::RetryAfter(100),
        step_after_failure(1) == RetryStep::RetryAfter(200),
        step_after_failure(2) == RetryStep::GiveUp,
{
    reveal_with_fuel(pow2, 2);
}

/// Whether the general optimization pass rebuilds the indexes: above a
/// thousand pages.
pub fn reindex_on_optimize(page_count: i64) -> (r: bool)
    ensures
        r == (page_count > 1000),
{
    page_count > 1000
}

/// Whether a maintenance run rebuilds the indexes: above five thousand
/// pages.
pub fn needs_index_rebuild(page_count: i64) -> (r: bool)
    ensures
        r == (page_count > 5000),
{
    page_count > 5000
}

/// The verdict on an integrity check's answer: "ok" passes, anything else
/// fails with the answer quoted.
pub fn integrity_verdict(answer: &str) -> (r: Result<(), String>)
    ensures
        answer@ == "ok"@ ==> r is Ok,
        answer@ != "ok"@ ==> (r matches Err(m) && m@ == "Integrity check failed: "@ + answer@),
{
    if str_equal(answer, "ok") {
        Ok(())
    } else {
        let mut m = String::from_str("Integrity check failed: ");
        push_str_to(&mut m, answer);
        Err(m)
    }
}

/// The steps of a maintenance run, in the order they run.
#[derive(Clone, Copy, Debug, PartialEq, Eq, Structural)]
pub enum MaintenanceStep {
    Cleanup,
    Optimize,
    RebuildIndexes,
    Vacuum,
    UpdateStatistics,
}

/// What a maintenance report says of a step that succeeded.
pub open spec fn step_done_text(s: MaintenanceStep) -> Seq<char> {
    match s {
        MaintenanceStep::Cleanup => "Cleaned up old data"@,
        MaintenanceStep::Optimize => "Optimized database structure"@,
        MaintenanceStep::RebuildIndexes => "Checked and rebuilt indexes"@,
        MaintenanceStep::Vacuum => "Checked database fragmentation"@,
        MaintenanceStep::UpdateStatistics => "Updated query statistics"@,
    }
}

/// What a maintenance report puts before the error of a step that failed.
pub open spec fn step_failed_prefix(s: MaintenanceStep) -> Seq<char> {
    match s {
        MaintenanceStep::Cleanup => "Cleanup failed: "@,
        MaintenanceStep::Optimize => "Optimization failed: "@,
        MaintenanceStep::RebuildIndexes => "Index rebuild failed: "@,
        MaintenanceStep::Vacuum => "Vacuum failed: "@,
        MaintenanceStep::UpdateStatistics => "Statistics update failed: "@,
    }
}

/// The steps of a maintenance run, in order.
pub fn maintenance_steps() -> (r: Vec<MaintenanceStep>)
    ensures
        r@ == seq![
            MaintenanceStep::Cleanup,
            MaintenanceStep::Optimize,
            MaintenanceStep::RebuildIndexes,
            MaintenanceStep::Vacuum,
            MaintenanceStep::UpdateStatistics,
        ],
{
    vec![
        MaintenanceStep::Cleanup,
        MaintenanceStep::Optimize,
        MaintenanceStep::RebuildIndexes,
        MaintenanceStep::Vacuum,
        MaintenanceStep::UpdateStatistics,
    ]
}

/// Whether `after` is `before` with one more entry, of the given text.
pub open spec fn appended(before: Seq<String>, after: Seq<String>, text: Seq<char>) -> bool {
    after.len() == before.len() + 1 && after.drop_last() == before && after.last()@ == text
}

/// Records how a maintenance step went: its text among the operations
/// performed where it succeeded, its error with the step's prefix among
/// the errors where it failed.
pub fn record_maintenance_step(
    operations: &mut Vec<String>,
    errors: &mut Vec<String>,
    step: MaintenanceStep,
    outcome: Result<(), String>,
)
    ensures
        match outcome {
            Ok(()) => final(errors)@ == old(errors)@ && appended(old(operations)@, final(operations)@, step_done_text(step)),
            Err(e) => final(operations)@ == old(operations)@ && appended(old(errors)@, final(errors)@, step_failed_prefix(step) + e@),
        },
{
    match outcome {
        Ok(()) => {
            let text = match step {
                MaintenanceStep::Cleanup => "Cleaned up old data",
                MaintenanceStep::Optimize => "Optimized database structure",
                MaintenanceStep::RebuildIndexes => "Checked and rebuilt indexes",
                MaintenanceStep::Vacuum => "Checked database fragmentation",
                MaintenanceStep::UpdateStatistics => "Updated query statistics",
            };
            let ghost before = operations@;
            operations.push(String::from_str(text));
            assert(operations@.drop_last() =~= before);
        },
        Err(e) => {
            let mut m = match step {
                MaintenanceStep::Cleanup => String::from_str("Cleanup failed: "),
                MaintenanceStep::Optimize => String::from_str("Optimization failed: "),
                MaintenanceStep::RebuildIndexes => String::from_str("Index rebuild failed: "),
                MaintenanceStep::Vacuum => String::from_str("Vacuum failed: "),
                MaintenanceStep::UpdateStatistics => String::from_str("Statistics update failed: "),
            };
            push_str_to(&mut m, e.as_str());
            let ghost before = errors@;
            errors.push(m);
            assert(errors@.drop_last() =~= before);
        },
    }
}

/// The error recorded when the metrics before (`initial`) or after a
/// maintenance run could not be read.
pub fn metrics_failure_message(initial: bool, error: &str) -> (r: String)
    ensures
        r@ == (if initial {
            "Failed to get initial metrics: "@
        } else {
            "Failed to get final metrics: "@
        }) + error@,
{
    let mut m = if initial {
        String::from_str("Failed to get initial metrics: ")
    } else {
        String::from_str("Failed to get final metrics: ")
    };
    push_str_to(&mut m, error);
    m
}

} // verus!
