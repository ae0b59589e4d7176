//! What the course dashboard shows: totals over the course list, which
//! courses match the search box, the card of one course, its relative
//! creation date, and the edits made from a card (delete, duplicate).
use vstd::prelude::*;
use crate::course::Course;
use crate::ids::Uuid;
use crate::text::{
    contains_seq, contains_str, decimal, push_decimal, push_signed_decimal, push_str_to,
    signed_decimal, to_lowercase_str, unicode_lowercase,
};
use crate::time::{UtcDateTime, chrono_accepts_timestamp, format_instant, long_date_text, utc_now};

verus! {

/// The number of videos a course shows: its video records, or its titles
/// where there are more of those.
pub open spec fn course_videos(c: Course) -> nat {
    if c.videos@.len() >= c.raw_titles@.len() {
        c.videos@.len()
    } else {
        c.raw_titles@.len()
    }
}

/// How many courses of a list are structured.
pub open spec fn structured_count(cs: Seq<Course>) -> nat
    decreases cs.len(),
{
    if cs.len() == 0 {
        0
    } else {
        structured_count(cs.drop_last()) + if cs.last().structure is Some {
            1nat
        } else {
            0nat
        }
    }
}

/// The videos of all courses of a list together.
pub open spec fn total_videos(cs: Seq<Course>) -> nat
    decreases cs.len(),
{
    if cs.len() == 0 {
        0
    } else {
        total_videos(cs.drop_last()) + course_videos(cs.last())
    }
}

/// A prefix of a list holds no more videos than the list.
pub proof fn lemma_total_videos_prefix(cs: Seq<Course>, k: int)
    requires
        0 <= k <= cs.len(),
    ensures
        total_videos(cs.take(k)) <= total_videos(cs),
    decreases cs.len() - k,
{
    if k < cs.len() {
        lemma_total_videos_prefix(cs, k + 1);
        assert(cs.take(k + 1).drop_last() =~= cs.take(k));
    } else {
        assert(cs.take(k) =~= cs);
    }
}

/// The number of structured courses.
pub fn count_structured_courses(courses: &[Course]) -> (r: usize)
    ensures
        r == structured_count(courses@),
{
    let mut n: usize = 0;
    let mut i: usize = 0;
    while i < courses.len()
        invariant
            i <= courses@.len(),
            n == structured_count(courses@.take(i as int)),
            n <= i,
        decreases courses@.len() - i,
    {
        assert(courses@.take(i + 1).drop_last() =~= courses@.take(i as int));
        if courses[i].is_structured() {
            n = n + 1;
        }
        i = i + 1;
    }
    assert(courses@.take(i as int) =~= courses@);
    n
}

/// The number of videos over all courses; the total must fit in a `usize`.
pub fn count_total_videos(courses: &[Course]) -> (r: usize)
    requires
        total_videos(courses@) <= usize::MAX,
    ensures
        r == total_videos(courses@),
{
    let mut n: usize = 0;
    let mut i: usize = 0;
    while i < courses.len()
        invariant
            i <= courses@.len(),
            n == total_videos(courses@.take(i as int)),
            total_videos(courses@) <= usize::MAX,
        decreases courses@.len() - i,
    {
        assert(courses@.take(i + 1).drop_last() =~= courses@.take(i as int));
        proof {
            lemma_total_videos_prefix(courses@, i + 1);
        }
        n = n + courses[i].video_count();
        i = i + 1;
    }
    assert(courses@.take(i as int) =~= courses@);
    n
}

/// An instant as nanoseconds since the epoch.
pub open spec fn instant_nanos(t: UtcDateTime) -> int {
    t.secs * 1_000_000_000 + t.nanos
}

/// Integer division rounding toward zero, for a positive divisor.
pub open spec fn div_toward_zero(a: int, b: int) -> int {
    if a >= 0 {
        a / b
    } else {
        -((-a) / b)
    }
}

/// Whole days from `date` to `now`, rounded toward zero as a span of
/// time counts them: negative for a date after `now`.
pub open spec fn whole_days_between(date: UtcDateTime, now: UtcDateTime) -> int {
    div_toward_zero(
        div_toward_zero(instant_nanos(now) - instant_nanos(date), 1_000_000_000),
        86400,
    )
}

/// How long ago a date was, as the course card says it: "today",
/// "yesterday", a number of days below a week, a number of weeks below
/// thirty days, and the date itself after that.
pub open spec fn relative_date(date: UtcDateTime, now: UtcDateTime) -> Seq<char> {
    let d = whole_days_between(date, now);
    if d == 0 {
        "today"@
    } else if d == 1 {
        "yesterday"@
    } else if d < 7 {
        signed_decimal(d) + " days ago"@
    } else if d < 30 {
        decimal((d / 7) as nat) + " weeks ago"@
    } else {
        long_date_text(date.secs, date.nanos)
    }
}

fn div_toward_zero_i128(a: i128, b: i128) -> (r: i128)
    requires
        b > 0,
        a > i128::MIN,
    ensures
        r == div_toward_zero(a as int, b as int),
{
    if a >= 0 {
        a / b
    } else {
        let m = -a;
        -(m / b)
    }
}

/// Whole days from `date` to `now`, as a span of time counts them.
pub fn days_between(date: UtcDateTime, now: UtcDateTime) -> (r: i64)
    ensures
        r == whole_days_between(date, now),
{
    let secs_diff: i128 = now.secs as i128 - date.secs as i128;
    let nanos_diff: i128 = now.nanos as i128 - date.nanos as i128;
    assert(-0x1_0000_0000_0000_0000 * 1_000_000_000 <= secs_diff * 1_000_000_000
        <= 0x1_0000_0000_0000_0000 * 1_000_000_000) by (nonlinear_arith)
        requires
            -0x1_0000_0000_0000_0000 <= secs_diff <= 0x1_0000_0000_0000_0000,
    ;
    let diff: i128 = secs_diff * 1_000_000_000 + nanos_diff;
    let secs = div_toward_zero_i128(diff, 1_000_000_000);
    assert(-0x1_0000_0000_0000_0000 - 5 <= secs <= 0x1_0000_0000_0000_0000 + 5) by (nonlinear_arith)
        requires
            secs == div_toward_zero(diff as int, 1_000_000_000),
            -0x1_0000_0000_0000_0000 * 1_000_000_000 - 0x1_0000_0000 <= diff
                <= 0x1_0000_0000_0000_0000 * 1_000_000_000 + 0x1_0000_0000,
    ;
    let days = div_toward_zero_i128(secs, 86400);
    days as i64
}

/// How long ago `date` was, seen from `now`.
pub fn relative_date_text(date: UtcDateTime, now: UtcDateTime) -> (r: String)
    requires
        chrono_accepts_timestamp(date.secs, date.nanos),
    ensures
        r@ == relative_date(date, now),
{
    let d = days_between(date, now);
    if d == 0 {
        String::from_str("today")
    } else if d == 1 {
        String::from_str("yesterday")
    } else if d < 7 {
        let mut s = String::new();
        push_signed_decimal(&mut s, d);
        push_str_to(&mut s, " days ago");
        s
    } else if d < 30 {
        let mut s = String::new();
        push_decimal(&mut s, (d / 7) as u64);
        push_str_to(&mut s, " weeks ago");
        s
    } else {
        format_instant(date, "%B %d, %Y")
    }
}

/// How long ago `date` is now, by the system clock.
pub fn format_date(date: UtcDateTime) -> (r: String)
    requires
        chrono_accepts_timestamp(date.secs, date.nanos),
    ensures
        exists|now: UtcDateTime| r@ == relative_date(date, now),
{
    let now = utc_now();
    relative_date_text(date, now)
}

/// How long ago `date` is now, where chrono represents the date; `None`
/// where it does not.
pub fn describe_date(date: UtcDateTime) -> (r: Option<String>)
    ensures
        r is Some <==> chrono_accepts_timestamp(date.secs, date.nanos),
        r matches Some(s) ==> exists|now: UtcDateTime| s@ == relative_date(date, now),
{
    if date.check_representable() {
        Some(format_date(date))
    } else {
        None
    }
}

/// How long ago `date` was, seen from `now`, where chrono represents the
/// date; `None` where it does not.
pub fn relative_date_checked(date: UtcDateTime, now: UtcDateTime) -> (r: Option<String>)
    ensures
        r is Some <==> chrono_accepts_timestamp(date.secs, date.nanos),
        r matches Some(s) ==> s@ == relative_date(date, now),
{
    if date.check_representable() {
        Some(relative_date_text(date, now))
    } else {
        None
    }
}

/// Whether a course shows under the search box: its lower-cased name
/// contains the lower-cased query (any name does for an empty query), and
/// it is structured where only structured courses are asked for.
pub open spec fn course_shown(c: Course, query: Seq<char>, structured_only: bool) -> bool {
    let q = unicode_lowercase(query);
    (q.len() == 0 || contains_seq(unicode_lowercase(c.name@), q)) && (!structured_only
        || c.structure is Some)
}

/// The positions, in order, of the courses shown among the first `k`.
pub open spec fn shown_positions(
    cs: Seq<Course>,
    query: Seq<char>,
    structured_only: bool,
    k: int,
) -> Seq<usize>
    decreases k,
{
    if k <= 0 {
        seq![]
    } else if course_shown(cs[k - 1], query, structured_only) {
        shown_positions(cs, query, structured_only, k - 1).push((k - 1) as usize)
    } else {
        shown_positions(cs, query, structured_only, k - 1)
    }
}

/// The dashboard lists courses in list order, each at most once, and only
/// positions of the list.
pub proof fn lemma_shown_positions_ordered(
    cs: Seq<Course>,
    query: Seq<char>,
    structured_only: bool,
    k: int,
)
    requires
        0 <= k <= cs.len(),
        cs.len() <= usize::MAX,
    ensures
        forall|i: int, j: int|
            0 <= i < j < shown_positions(cs, query, structured_only, k).len() ==> #[trigger] shown_positions(
                cs,
                query,
                structured_only,
                k,
            )[i] < #[trigger] shown_positions(cs, query, structured_only, k)[j],
        forall|i: int|
            0 <= i < shown_positions(cs, query, structured_only, k).len() ==> #[trigger] shown_positions(
                cs,
                query,
                structured_only,
                k,
            )[i] < k,
        forall|i: int|
            0 <= i < shown_positions(cs, query, structured_only, k).len() ==> course_shown(
                cs[#[trigger] shown_positions(cs, query, structured_only, k)[i] as int],
                query,
                structured_only,
            ),
    decreases k,
{
    if k > 0 {
        lemma_shown_positions_ordered(cs, query, structured_only, k - 1);
        let p = shown_positions(cs, query, structured_only, k - 1);
        let r = shown_positions(cs, query, structured_only, k);
        if course_shown(cs[k - 1], query, structured_only) {
            assert(r == p.push((k - 1) as usize));
            assert forall|i: int, j: int| 0 <= i < j < r.len() implies #[trigger] r[i] < #[trigger] r[j] by {
                if j < p.len() {
                    assert(r[i] == p[i] && r[j] == p[j]);
                } else {
                    assert(r[i] == p[i]);
                }
            }
            assert forall|i: int| 0 <= i < r.len() implies #[trigger] r[i] < k by {
                if i < p.len() {
                    assert(r[i] == p[i]);
                }
            }
            assert forall|i: int| 0 <= i < r.len() implies course_shown(
                cs[#[trigger] r[i] as int],
                query,
                structured_only,
            ) by {
                if i < p.len() {
                    assert(r[i] == p[i]);
                }
            }
        }
    }
}

/// A course is listed exactly when its lower-cased name contains the
/// lower-cased query (any course, for an empty query) and, with the
/// structured-only switch on, it is structured. So with the switch on,
/// every listed course is structured, whatever the query.
pub proof fn lemma_listed_courses_match_filters(
    cs: Seq<Course>,
    query: Seq<char>,
    structured_only: bool,
)
    requires
        cs.len() <= usize::MAX,
    ensures
        structured_only ==> forall|i: int|
            0 <= i < shown_positions(cs, query, structured_only, cs.len() as int).len() ==> cs[
                #[trigger] shown_positions(cs, query, structured_only, cs.len() as int)[i] as int
            ].structure is Some,
        forall|p: int|
            0 <= p < cs.len() ==> (shown_positions(cs, query, structured_only, cs.len() as int).contains(
                p as usize,
            ) <==> ((unicode_lowercase(query).len() == 0 || contains_seq(
                unicode_lowercase((#[trigger] cs[p]).name@),
                unicode_lowercase(query),
            )) && (!structured_only || cs[p].structure is Some))),
{
    lemma_shown_positions_ordered(cs, query, structured_only, cs.len() as int);
    lemma_shown_membership(cs, query, structured_only, cs.len() as int);
}

/// Which positions among the first `k` are listed.
proof fn lemma_shown_membership(cs: Seq<Course>, query: Seq<char>, structured_only: bool, k: int)
    requires
        0 <= k <= cs.len(),
        cs.len() <= usize::MAX,
    ensures
        forall|p: int|
            0 <= p < cs.len() ==> (shown_positions(cs, query, structured_only, k).contains(
                p as usize,
            ) <==> (p < k && course_shown(#[trigger] cs[p], query, structured_only))),
    decreases k,
{
    lemma_shown_positions_ordered(cs, query, structured_only, k);
    if k > 0 {
        lemma_shown_membership(cs, query, structured_only, k - 1);
        let prev = shown_positions(cs, query, structured_only, k - 1);
        let cur = shown_positions(cs, query, structured_only, k);
        assert forall|p: int| 0 <= p < cs.len() implies (cur.contains(p as usize) <==> (p < k
            && course_shown(#[trigger] cs[p], query, structured_only))) by {
            if course_shown(cs[k - 1], query, structured_only) {
                assert(cur == prev.push((k - 1) as usize));
                if cur.contains(p as usize) {
                    let j = choose|j: int| 0 <= j < cur.len() && cur[j] == p as usize;
                    if j < prev.len() {
                        assert(prev[j] == cur[j]);
                        assert(prev.contains(p as usize));
                    }
                }
                if p < k && course_shown(cs[p], query, structured_only) {
                    if p == k - 1 {
                        assert(cur[prev.len() as int] == p as usize);
                    } else {
                        let j = choose|j: int| 0 <= j < prev.len() && prev[j] == p as usize;
                        assert(cur[j] == p as usize);
                    }
                }
            } else {
                assert(cur == prev);
            }
        }
    }
}

/// The positions of the courses the dashboard lists for a search query and
/// the structured-only switch, in list order.
pub fn filter_courses(courses: &[Course], query: &str, structured_only: bool) -> (r: Vec<usize>)
    ensures
        r@ == shown_positions(courses@, query@, structured_only, courses@.len() as int),
{
    let q = to_lowercase_str(query);
    let mut r: Vec<usize> = Vec::new();
    let mut i: usize = 0;
    while i < courses.len()
        invariant
            i <= courses@.len(),
            q@ == unicode_lowercase(query@),
            r@ == shown_positions(courses@, query@, structured_only, i as int),
        decreases courses@.len() - i,
    {
        let matches_search = if q.unicode_len() == 0 {
            true
        } else {
            let name = to_lowercase_str(courses[i].name.as_str());
            contains_str(name.as_str(), q.as_str())
        };
        let matches_structure = if structured_only {
            courses[i].is_structured()
        } else {
            true
        };
        if matches_search && matches_structure {
            r.push(i);
        }
        i = i + 1;
    }
    r
}

/// The courses of a list other than the one with the given id, in order.
pub open spec fn without_course(cs: Seq<Course>, id: Uuid) -> Seq<Course>
    decreases cs.len(),
{
    if cs.len() == 0 {
        seq![]
    } else if cs[0].id == id {
        without_course(cs.drop_first(), id)
    } else {
        seq![cs[0]] + without_course(cs.drop_first(), id)
    }
}

/// Deleting a course from a card: every course with that id leaves the
/// list, the others keep their order.
pub fn remove_course(courses: &mut Vec<Course>, course_id: Uuid)
    ensures
        final(courses)@ == without_course(old(courses)@, course_id),
{
    let mut rest: Vec<Course> = Vec::new();
    std::mem::swap(courses, &mut rest);
    let ghost original = rest@;
    while rest.len() > 0
        invariant
            courses@ + without_course(rest@, course_id) == without_course(original, course_id),
        decreases rest@.len(),
    {
        let ghost before = rest@;
        let c = rest.remove(0);
        assert(rest@ =~= before.drop_first());
        if c.id != course_id {
            let ghost kept = courses@;
            courses.push(c);
            assert(courses@ + without_course(rest@, course_id) =~= kept + without_course(
                before,
                course_id,
            ));
        }
    }
}

/// The copy made from a card: a new id, the name with " (Copy)" after
/// it, and everything else as in the course.
pub fn duplicate_course(course: Course) -> (r: Course)
    ensures
        r.name@ == course.name@ + " (Copy)"@,
        r.created_at == course.created_at,
        r.raw_titles == course.raw_titles,
        r.videos == course.videos,
        r.structure == course.structure,
{
    let Course { id: _, name, created_at, raw_titles, videos, structure } = course;
    let mut new_name = name;
    push_str_to(&mut new_name, " (Copy)");
    Course { id: Uuid::new_v4(), name: new_name, created_at, raw_titles, videos, structure }
}

/// What a course card shows besides the title: the number of modules and
/// the difficulty level of a structured course ("Unknown" where none was
/// recorded), and no modules with "Pending" for one not structured yet.
pub fn course_card_summary(course: &Course) -> (r: (usize, String))
    ensures
        match course.structure {
            Some(s) => r.0 == s.modules@.len() && r.1@ == match s.metadata.difficulty_level {
                Some(d) => d@,
                None => "Unknown"@,
            },
            None => r.0 == 0 && r.1@ == "Pending"@,
        },
{
    match &course.structure {
        Some(s) => {
            let level = match &s.metadata.difficulty_level {
                Some(d) => d.clone(),
                None => String::from_str("Unknown"),
            };
            (s.modules.len(), level)
        },
        None => (0, String::from_str("Pending")),
    }
}

/// The status line and button text of a course card: ready with a plan to
/// view once structured, pending with structuring to do before.
pub fn course_card_status(structured: bool) -> (r: (&'static str, &'static str, &'static str))
    ensures
        structured ==> r.0@ == "structured"@ && r.1@ == "Ready"@ && r.2@ == "View Plan"@,
        !structured ==> r.0@ == "unstructured"@ && r.1@ == "Pending"@ && r.2@
            == "Structure Course"@,
{
    if structured {
        ("structured", "Ready", "View Plan")
    } else {
        ("unstructured", "Pending", "Structure Course")
    }
}

/// The content preview of a card: the first three titles at most, and how
/// many more there are.
pub fn content_preview(title_count: usize) -> (r: (usize, usize))
    ensures
        title_count <= 3 ==> r == (title_count, 0usize),
        title_count > 3 ==> r == (3usize, (title_count - 3) as usize),
{
    if title_count > 3 {
        (3, title_count - 3)
    } else {
        (title_count, 0)
    }
}

/// Whether instant `a` is not after instant `b`.
pub open spec fn not_after(a: UtcDateTime, b: UtcDateTime) -> bool {
    a.secs < b.secs || (a.secs == b.secs && a.nanos <= b.nanos)
}

/// The course shown as the last one used: the most recently created one,
/// the later in the list among equally recent ones; none for an empty list.
pub fn last_accessed_course(courses: &[Course]) -> (r: Option<usize>)
    ensures
        courses@.len() == 0 <==> r is None,
        r matches Some(i) ==> i < courses@.len() && (forall|j: int|
            0 <= j < courses@.len() ==> not_after(#[trigger] courses@[j].created_at, courses@[i as int].created_at))
            && (forall|j: int|
            i < j < courses@.len() ==> !not_after(
                courses@[i as int].created_at,
                #[trigger] courses@[j].created_at,
            )),
{
    if courses.len() == 0 {
        return None;
    }
    let mut best: usize = 0;
    let mut i: usize = 1;
    while i < courses.len()
        invariant
            1 <= i <= courses@.len(),
            best < i,
            forall|j: int| 0 <= j < i ==> not_after(#[trigger] courses@[j].created_at, courses@[best as int].created_at),
            forall|j: int| best < j < i ==> !not_after(courses@[best as int].created_at, #[trigger] courses@[j].created_at),
        decreases courses@.len() - i,
    {
        let a = courses[best].created_at;
        let b = courses[i].created_at;
        if a.secs < b.secs || (a.secs == b.secs && a.nanos <= b.nanos) {
            best = i;
        }
        i = i + 1;
    }
    Some(best)
}

/// The quick-access status of the last used course: its call to action,
/// style and icon.
pub fn quick_access_status(structured: bool, has_plan: bool) -> (r: (&'static str, &'static str, &'static str))
    ensures
        structured && has_plan ==> r.0@ == "Ready to Study"@ && r.1@ == "text-success"@ && r.2@
            == "\u{25B6}\u{FE0F}"@,
        structured && !has_plan ==> r.0@ == "Create Study Plan"@ && r.1@ == "text-warning"@ && r.2@
            == "\u{1F4CB}"@,
        !structured ==> r.0@ == "Structure Course"@ && r.1@ == "text-info"@ && r.2@
            == "\u{1F3D7}\u{FE0F}"@,
{
    if structured {
        if has_plan {
            ("Ready to Study", "text-success", "\u{25B6}\u{FE0F}")
        } else {
            ("Create Study Plan", "text-warning", "\u{1F4CB}")
        }
    } else {
        ("Structure Course", "text-info", "\u{1F3D7}\u{FE0F}")
    }
}

} // verus!
