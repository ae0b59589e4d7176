//! Which planned sessions the overview lists: the sessions of the coming
//! week and those of today, in date order, and how urgent a session is.
//! A session is named by its plan's position in the list and its own
//! position in that plan.
use vstd::prelude::*;
use crate::plan::Plan;
use crate::time::{UtcDateTime, utc_now};

verus! {

/// A session of a list of plans: the plan's position, the item's position.
pub type SessionRef = (usize, usize);

/// Whether a reference names a session of the plans.
pub open spec fn valid_ref(plans: Seq<Plan>, e: SessionRef) -> bool {
    e.0 < plans.len() && e.1 < plans[e.0 as int].items@.len()
}

/// The date of the session a reference names.
pub open spec fn ref_date(plans: Seq<Plan>, e: SessionRef) -> UtcDateTime {
    plans[e.0 as int].items@[e.1 as int].date
}

/// Whether instant `a` comes before instant `b`.
pub open spec fn instant_lt(a: UtcDateTime, b: UtcDateTime) -> bool {
    a.secs < b.secs || (a.secs == b.secs && a.nanos < b.nanos)
}

/// Whether reference `a` comes before reference `b` in list order.
pub open spec fn position_lt(a: SessionRef, b: SessionRef) -> bool {
    a.0 < b.0 || (a.0 == b.0 && a.1 < b.1)
}

/// The listing order: by date, and sessions of the same date in the order
/// of the plans and of their items (a stable sort by date).
pub open spec fn listed_before(plans: Seq<Plan>, a: SessionRef, b: SessionRef) -> bool {
    instant_lt(ref_date(plans, a), ref_date(plans, b)) || (ref_date(plans, a) == ref_date(
        plans,
        b,
    ) && position_lt(a, b))
}

/// Whether a list of references is in listing order, each strictly before
/// the next.
pub open spec fn in_listing_order(plans: Seq<Plan>, s: Seq<SessionRef>) -> bool {
    forall|i: int, j: int|
        0 <= i < j < s.len() ==> listed_before(plans, #[trigger] s[i], #[trigger] s[j])
}

fn listed_before_exec(plans: &[Plan], a: SessionRef, b: SessionRef) -> (r: bool)
    requires
        valid_ref(plans@, a),
        valid_ref(plans@, b),
    ensures
        r == listed_before(plans@, a, b),
{
    let da = plans[a.0].items[a.1].date;
    let db = plans[b.0].items[b.1].date;
    if da.secs < db.secs || (da.secs == db.secs && da.nanos < db.nanos) {
        true
    } else if da.secs == db.secs && da.nanos == db.nanos {
        a.0 < b.0 || (a.0 == b.0 && a.1 < b.1)
    } else {
        false
    }
}

/// Puts a reference into its place in a list in listing order.
fn insert_listed(plans: &[Plan], out: &mut Vec<SessionRef>, x: SessionRef)
    requires
        in_listing_order(plans@, old(out)@),
        forall|k: int| 0 <= k < old(out)@.len() ==> valid_ref(plans@, #[trigger] old(out)@[k]),
        valid_ref(plans@, x),
        !old(out)@.contains(x),
    ensures
        in_listing_order(plans@, final(out)@),
        forall|k: int| 0 <= k < final(out)@.len() ==> valid_ref(plans@, #[trigger] final(out)@[k]),
        forall|y: SessionRef| final(out)@.contains(y) <==> (old(out)@.contains(y) || y == x),
{
    let mut j: usize = 0;
    while j < out.len() && !listed_before_exec(plans, x, out[j])
        invariant
            j <= out@.len(),
            out@ == old(out)@,
            in_listing_order(plans@, out@),
            forall|k: int| 0 <= k < out@.len() ==> valid_ref(plans@, #[trigger] out@[k]),
            valid_ref(plans@, x),
            !out@.contains(x),
            forall|k: int| 0 <= k < j ==> listed_before(plans@, #[trigger] out@[k], x),
        decreases out@.len() - j,
    {
        assert(out@[j as int] != x);
        j = j + 1;
    }
    let ghost before = out@;
    out.insert(j, x);
    proof {
        let after = out@;
        assert(after == before.insert(j as int, x));
        assert forall|k: int| 0 <= k < after.len() implies valid_ref(plans@, #[trigger] after[k]) by {
            if k < j {
                assert(after[k] == before[k]);
            } else if k > j {
                assert(after[k] == before[k - 1]);
            }
        }
        assert forall|a: int, b: int| 0 <= a < b < after.len() implies listed_before(
            plans@,
            #[trigger] after[a],
            #[trigger] after[b],
        ) by {
            if b < j {
                assert(after[a] == before[a] && after[b] == before[b]);
            } else if b == j {
                assert(after[a] == before[a]);
            } else if a > j {
                assert(after[a] == before[a - 1] && after[b] == before[b - 1]);
            } else if a == j {
                assert(after[b] == before[b - 1]);
                assert(listed_before(plans@, x, before[j as int]));
                if b - 1 > j {
                    assert(listed_before(plans@, before[j as int], before[b - 1]));
                }
            } else {
                assert(after[a] == before[a] && after[b] == before[b - 1]);
                assert(listed_before(plans@, before[a], x));
                assert(listed_before(plans@, x, before[j as int]));
                if b - 1 > j {
                    assert(listed_before(plans@, before[j as int], before[b - 1]));
                }
            }
        }
        assert forall|y: SessionRef| after.contains(y) <==> (before.contains(y) || y == x) by {
            if after.contains(y) {
                let k = choose|k: int| 0 <= k < after.len() && after[k] == y;
                if k < j {
                    assert(before[k] == y);
                } else if k > j {
                    assert(before[k - 1] == y);
                }
            }
            if before.contains(y) {
                let k = choose|k: int| 0 <= k < before.len() && before[k] == y;
                if k < j {
                    assert(after[k] == y);
                } else {
                    assert(after[k + 1] == y);
                }
            }
            if y == x {
                assert(after[j as int] == y);
            }
        }
    }
}

/// A list in listing order names no session twice.
pub proof fn lemma_listing_has_no_duplicates(plans: Seq<Plan>, s: Seq<SessionRef>)
    requires
        in_listing_order(plans, s),
    ensures
        s.no_duplicates(),
{
    assert forall|i: int, j: int| 0 <= i < s.len() && 0 <= j < s.len() && i != j implies s[i] != s[j] by {
        if i < j {
            assert(listed_before(plans, s[i], s[j]));
        } else {
            assert(listed_before(plans, s[j], s[i]));
        }
    }
}

/// Whether instant `d` is at most seven days after `now`.
pub open spec fn not_past_week(now: UtcDateTime, d: UtcDateTime) -> bool {
    d.secs < now.secs + 604800 || (d.secs == now.secs + 604800 && d.nanos <= now.nanos)
}

/// Whether a session is listed among the coming week's: not done, dated
/// after `now` and at most seven days after it.
pub open spec fn is_upcoming(plans: Seq<Plan>, e: SessionRef, now: UtcDateTime) -> bool {
    &&& valid_ref(plans, e)
    &&& !plans[e.0 as int].items@[e.1 as int].completed
    &&& instant_lt(now, ref_date(plans, e))
    &&& not_past_week(now, ref_date(plans, e))
}

/// The sessions of the coming week, in listing order: exactly the
/// sessions not done, dated after `now` and at most seven days after it.
pub fn upcoming_sessions(plans: &[Plan], now: UtcDateTime) -> (r: Vec<SessionRef>)
    requires
        now.secs + 604800 <= i64::MAX,
    ensures
        in_listing_order(plans@, r@),
        forall|e: SessionRef| r@.contains(e) <==> is_upcoming(plans@, e, now),
{
    let week_end = UtcDateTime { secs: now.secs + 604800, nanos: now.nanos };
    let mut out: Vec<SessionRef> = Vec::new();
    let mut p: usize = 0;
    while p < plans.len()
        invariant
            p <= plans@.len(),
            week_end.secs == now.secs + 604800 && week_end.nanos == now.nanos,
            in_listing_order(plans@, out@),
            forall|k: int| 0 <= k < out@.len() ==> valid_ref(plans@, #[trigger] out@[k]),
            forall|e: SessionRef| out@.contains(e) <==> (is_upcoming(plans@, e, now) && e.0 < p),
        decreases plans@.len() - p,
    {
        let mut i: usize = 0;
        while i < plans[p].items.len()
            invariant
                p < plans@.len(),
                i <= plans@[p as int].items@.len(),
                week_end.secs == now.secs + 604800 && week_end.nanos == now.nanos,
                in_listing_order(plans@, out@),
                forall|k: int| 0 <= k < out@.len() ==> valid_ref(plans@, #[trigger] out@[k]),
                forall|e: SessionRef|
                    out@.contains(e) <==> (is_upcoming(plans@, e, now) && position_lt(e, (p, i))),
            decreases plans@[p as int].items@.len() - i,
        {
            let item = &plans[p].items[i];
            let d = item.date;
            let after_now = now.secs < d.secs || (now.secs == d.secs && now.nanos < d.nanos);
            let past_week = week_end.secs < d.secs || (week_end.secs == d.secs && week_end.nanos
                < d.nanos);
            let ghost old_out = out@;
            if !item.completed && after_now && !past_week {
                assert(!out@.contains((p, i)));
                insert_listed(plans, &mut out, (p, i));
            }
            assert forall|e: SessionRef|
                out@.contains(e) <==> (is_upcoming(plans@, e, now) && position_lt(e, (p, (i + 1) as usize))) by {
                if e == (p, i) {
                } else {
                    assert(old_out.contains(e) <==> (is_upcoming(plans@, e, now) && position_lt(e, (p, i))));
                }
            }
            i = i + 1;
        }
        assert forall|e: SessionRef| out@.contains(e) <==> (is_upcoming(plans@, e, now) && e.0 < p + 1) by {
            assert(out@.contains(e) <==> (is_upcoming(plans@, e, now) && position_lt(e, (p, plans@[p as int].items@.len() as usize))));
        }
        p = p + 1;
    }
    out
}

/// Whether a session falls within a span of time: at or after its start,
/// before its end.
pub open spec fn is_within(plans: Seq<Plan>, e: SessionRef, start: UtcDateTime, end: UtcDateTime) -> bool {
    &&& valid_ref(plans, e)
    &&& !instant_lt(ref_date(plans, e), start)
    &&& instant_lt(ref_date(plans, e), end)
}

/// The sessions of one day, done or not, in listing order: exactly those
/// dated from the day's first instant up to, not including, the next
/// day's (the caller takes both from the local calendar).
pub fn todays_sessions(plans: &[Plan], day_start: UtcDateTime, day_end: UtcDateTime) -> (r: Vec<SessionRef>)
    ensures
        in_listing_order(plans@, r@),
        forall|e: SessionRef| r@.contains(e) <==> is_within(plans@, e, day_start, day_end),
{
    let mut out: Vec<SessionRef> = Vec::new();
    let mut p: usize = 0;
    while p < plans.len()
        invariant
            p <= plans@.len(),
            in_listing_order(plans@, out@),
            forall|k: int| 0 <= k < out@.len() ==> valid_ref(plans@, #[trigger] out@[k]),
            forall|e: SessionRef| out@.contains(e) <==> (is_within(plans@, e, day_start, day_end) && e.0 < p),
        decreases plans@.len() - p,
    {
        let mut i: usize = 0;
        while i < plans[p].items.len()
            invariant
                p < plans@.len(),
                i <= plans@[p as int].items@.len(),
                in_listing_order(plans@, out@),
                forall|k: int| 0 <= k < out@.len() ==> valid_ref(plans@, #[trigger] out@[k]),
                forall|e: SessionRef|
                    out@.contains(e) <==> (is_within(plans@, e, day_start, day_end) && position_lt(e, (p, i))),
            decreases plans@[p as int].items@.len() - i,
        {
            let d = plans[p].items[i].date;
            let before_start = d.secs < day_start.secs || (d.secs == day_start.secs && d.nanos
                < day_start.nanos);
            let before_end = d.secs < day_end.secs || (d.secs == day_end.secs && d.nanos
                < day_end.nanos);
            let ghost old_out = out@;
            if !before_start && before_end {
                assert(!out@.contains((p, i)));
                insert_listed(plans, &mut out, (p, i));
            }
            assert forall|e: SessionRef|
                out@.contains(e) <==> (is_within(plans@, e, day_start, day_end) && position_lt(e, (p, (i + 1) as usize))) by {
                if e == (p, i) {
                } else {
                    assert(old_out.contains(e) <==> (is_within(plans@, e, day_start, day_end) && position_lt(e, (p, i))));
                }
            }
            i = i + 1;
        }
        assert forall|e: SessionRef| out@.contains(e) <==> (is_within(plans@, e, day_start, day_end) && e.0 < p + 1) by {
            assert(out@.contains(e) <==> (is_within(plans@, e, day_start, day_end) && position_lt(e, (p, plans@[p as int].items@.len() as usize))));
        }
        p = p + 1;
    }
    out
}

/// How soon a session is due.
#[derive(Clone, Copy, Debug, PartialEq, Eq, Structural)]
pub enum UrgencyLevel {
    /// Within a day.
    Critical,
    /// Within two days.
    High,
    /// Within four days.
    Medium,
    /// Later.
    Low,
}

/// Nanoseconds since the epoch.
pub open spec fn epoch_nanos(t: UtcDateTime) -> int {
    t.secs * 1_000_000_000 + t.nanos
}

/// The urgency of a session due at `deadline`, seen from `now`.
pub open spec fn urgency_for(deadline: UtcDateTime, now: UtcDateTime) -> UrgencyLevel {
    let left = epoch_nanos(deadline) - epoch_nanos(now);
    if left <= 86_400_000_000_000 {
        UrgencyLevel::Critical
    } else if left <= 2 * 86_400_000_000_000 {
        UrgencyLevel::High
    } else if left <= 4 * 86_400_000_000_000 {
        UrgencyLevel::Medium
    } else {
        UrgencyLevel::Low
    }
}

/// The urgency of a session due at `deadline`, seen from `now`.
pub fn urgency_level(deadline: UtcDateTime, now: UtcDateTime) -> (r: UrgencyLevel)
    ensures
        r == urgency_for(deadline, now),
{
    let left: i128 = (deadline.secs as i128 - now.secs as i128) * 1_000_000_000 + (
    deadline.nanos as i128 - now.nanos as i128);
    if left <= 86_400_000_000_000 {
        UrgencyLevel::Critical
    } else if left <= 2 * 86_400_000_000_000 {
        UrgencyLevel::High
    } else if left <= 4 * 86_400_000_000_000 {
        UrgencyLevel::Medium
    } else {
        UrgencyLevel::Low
    }
}

/// The urgency of a session due at `deadline`, seen from the system clock.
pub fn get_urgency_level(deadline: UtcDateTime) -> (r: UrgencyLevel)
    ensures
        exists|now: UtcDateTime| r == urgency_for(deadline, now),
{
    let now = utc_now();
    urgency_level(deadline, now)
}

/// How a session card shows an urgency: border style, icon and text.
pub fn urgency_display(level: UrgencyLevel) -> (r: (&'static str, &'static str, &'static str))
    ensures
        level == UrgencyLevel::Critical ==> r.0@ == "border-l-error text-error"@ && r.1@
            == "\u{1F6A8}"@ && r.2@ == "Due soon"@,
        level == UrgencyLevel::High ==> r.0@ == "border-l-warning text-warning"@ && r.1@
            == "\u{26A0}\u{FE0F}"@ && r.2@ == "Due tomorrow"@,
        level == UrgencyLevel::Medium ==> r.0@ == "border-l-info text-info"@ && r.1@ == "\u{1F4C5}"@
            && r.2@ == "This week"@,
        level == UrgencyLevel::Low ==> r.0@ == "border-l-success text-success"@ && r.1@
            == "\u{23F3}"@ && r.2@ == "Next week"@,
{
    match level {
        UrgencyLevel::Critical => ("border-l-error text-error", "\u{1F6A8}", "Due soon"),
        UrgencyLevel::High => ("border-l-warning text-warning", "\u{26A0}\u{FE0F}", "Due tomorrow"),
        UrgencyLevel::Medium => ("border-l-info text-info", "\u{1F4C5}", "This week"),
        UrgencyLevel::Low => ("border-l-success text-success", "\u{23F3}", "Next week"),
    }
}

/// Urgency only grows as the deadline comes closer: a session due no later
/// than another is at least as urgent.
pub open spec fn urgency_rank(u: UrgencyLevel) -> int {
    match u {
        UrgencyLevel::Critical => 3,
        UrgencyLevel::High => 2,
        UrgencyLevel::Medium => 1,
        UrgencyLevel::Low => 0,
    }
}

/// An earlier deadline is at least as urgent as a later one, seen from the
/// same instant.
pub proof fn lemma_urgency_monotone(d1: UtcDateTime, d2: UtcDateTime, now: UtcDateTime)
    requires
        epoch_nanos(d1) <= epoch_nanos(d2),
    ensures
        urgency_rank(urgency_for(d1, now)) >= urgency_rank(urgency_for(d2, now)),
{
}

} // verus!
