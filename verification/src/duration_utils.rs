//! Duration formatting and session-length checks.
use vstd::prelude::*;
use crate::course::Section;
use crate::duration::{Duration, max_duration_nanos};
use crate::plan::PlanSettings;
use crate::text::{decimal, push_decimal, push_str_to};

verus! {

/// Short rendering of a number of whole seconds: "Xh Ym", "Xh", "Ym" or
/// "Zs", omitting zero parts and leftover seconds once there are minutes.
pub open spec fn short_text(total_seconds: nat) -> Seq<char> {
    let hours = total_seconds / 3600;
    let minutes = (total_seconds % 3600) / 60;
    let seconds = total_seconds % 60;
    if hours > 0 {
        if minutes > 0 {
            decimal(hours) + "h "@ + decimal(minutes) + "m"@
        } else {
            decimal(hours) + "h"@
        }
    } else if minutes > 0 {
        decimal(minutes) + "m"@
    } else {
        decimal(seconds) + "s"@
    }
}

/// Verbose rendering: "X hours Y minutes", "X hours", "Y minutes" or
/// "Z seconds" (the last with the whole number of seconds).
pub open spec fn verbose_text(total_seconds: nat) -> Seq<char> {
    let hours = total_seconds / 3600;
    let minutes = (total_seconds % 3600) / 60;
    if hours > 0 {
        if minutes > 0 {
            decimal(hours) + " hours "@ + decimal(minutes) + " minutes"@
        } else {
            decimal(hours) + " hours"@
        }
    } else if minutes > 0 {
        decimal(minutes) + " minutes"@
    } else {
        decimal(total_seconds) + " seconds"@
    }
}

/// Formats a duration as "Xh Ym", "Xh", "Ym" or "Xs".
pub fn format_duration(duration: Duration) -> (r: String)
    ensures
        r@ == short_text(duration@ / 1_000_000_000),
{
    let total_seconds = duration.as_secs();
    let hours = total_seconds / 3600;
    let minutes = (total_seconds % 3600) / 60;
    let seconds = total_seconds % 60;
    let mut out = String::new();
    if hours > 0 {
        push_decimal(&mut out, hours);
        if minutes > 0 {
            push_str_to(&mut out, "h ");
            push_decimal(&mut out, minutes);
            push_str_to(&mut out, "m");
        } else {
            push_str_to(&mut out, "h");
        }
    } else if minutes > 0 {
        push_decimal(&mut out, minutes);
        push_str_to(&mut out, "m");
    } else {
        push_decimal(&mut out, seconds);
        push_str_to(&mut out, "s");
    }
    assert(out@ =~= short_text(duration@ / 1_000_000_000));
    out
}

/// Formats a duration as "X hours Y minutes", "X hours", "Y minutes" or
/// "Z seconds".
pub fn format_duration_verbose(duration: Duration) -> (r: String)
    ensures
        r@ == verbose_text(duration@ / 1_000_000_000),
{
    let total_seconds = duration.as_secs();
    let hours = total_seconds / 3600;
    let minutes = (total_seconds % 3600) / 60;
    let mut out = String::new();
    if hours > 0 {
        push_decimal(&mut out, hours);
        if minutes > 0 {
            push_str_to(&mut out, " hours ");
            push_decimal(&mut out, minutes);
            push_str_to(&mut out, " minutes");
        } else {
            push_str_to(&mut out, " hours");
        }
    } else if minutes > 0 {
        push_decimal(&mut out, minutes);
        push_str_to(&mut out, " minutes");
    } else {
        push_decimal(&mut out, total_seconds);
        push_str_to(&mut out, " seconds");
    }
    assert(out@ =~= verbose_text(duration@ / 1_000_000_000));
    out
}

/// Whether a duration is longer than a session limit in minutes.
pub fn is_duration_excessive(duration: Duration, session_limit_minutes: u32) -> (r: bool)
    ensures
        r == (duration@ > (session_limit_minutes as nat) * 60 * 1_000_000_000),
{
    let session_limit = Duration::from_secs(session_limit_minutes as u64 * 60);
    duration.is_longer_than(&session_limit)
}

/// Total nanoseconds of a list of section references.
pub open spec fn referenced_nanos(sections: Seq<&Section>) -> nat
    decreases sections.len(),
{
    if sections.len() == 0 {
        0
    } else {
        referenced_nanos(sections.drop_last()) + sections.last().duration@
    }
}

/// The warning for a session longer than its target.
pub open spec fn overflow_warning(total_seconds: nat, limit_seconds: nat) -> Seq<char> {
    "Session duration ("@ + short_text(total_seconds) + ") exceeds target ("@ + short_text(
        limit_seconds,
    ) + ")"@
}

/// The warning for one video longer than half a session.
pub open spec fn long_video_warning(section: Section) -> Seq<char> {
    "Video '"@ + section.title@ + "' is very long ("@ + short_text(
        section.duration@ / 1_000_000_000,
    ) + ") for session length"@
}

/// Warnings for the videos whose whole seconds exceed `half_limit`, in
/// order.
pub open spec fn long_video_warnings(sections: Seq<&Section>, half_limit: nat) -> Seq<Seq<char>>
    decreases sections.len(),
{
    if sections.len() == 0 {
        seq![]
    } else {
        let rest = long_video_warnings(sections.drop_last(), half_limit);
        if sections.last().duration@ / 1_000_000_000 > half_limit {
            rest.push(long_video_warning(*sections.last()))
        } else {
            rest
        }
    }
}

/// All warnings for a session: an overflow warning when the total exceeds
/// the session length, then one per video longer than half of it.
pub open spec fn session_warnings(sections: Seq<&Section>, session_length_minutes: nat) -> Seq<
    Seq<char>,
> {
    let limit_seconds = session_length_minutes * 60;
    let head = if referenced_nanos(sections) > limit_seconds * 1_000_000_000 {
        seq![overflow_warning(referenced_nanos(sections) / 1_000_000_000, limit_seconds)]
    } else {
        seq![]
    };
    head + long_video_warnings(sections, limit_seconds / 2)
}

/// Every video longer than the half limit has its warning in the list.
proof fn lemma_long_video_listed(sections: Seq<&Section>, half_limit: nat, i: int)
    requires
        0 <= i < sections.len(),
        sections[i].duration@ / 1_000_000_000 > half_limit,
    ensures
        long_video_warnings(sections, half_limit).contains(long_video_warning(*sections[i])),
    decreases sections.len(),
{
    let rest = long_video_warnings(sections.drop_last(), half_limit);
    if i == sections.len() - 1 {
        let r = rest.push(long_video_warning(*sections.last()));
        assert(r[r.len() - 1] == long_video_warning(*sections[i]));
    } else {
        assert(sections.drop_last()[i] == sections[i]);
        lemma_long_video_listed(sections.drop_last(), half_limit, i);
        let w = long_video_warning(*sections[i]);
        let k = choose|k: int| 0 <= k < rest.len() && rest[k] == w;
        if sections.last().duration@ / 1_000_000_000 > half_limit {
            let r = rest.push(long_video_warning(*sections.last()));
            assert(r[k] == w);
        }
    }
}

/// A video longer than half the session is always warned about, whether
/// or not the whole session is too long.
pub proof fn lemma_long_videos_always_warned(sections: Seq<&Section>, session_length_minutes: nat)
    ensures
        forall|i: int|
            0 <= i < sections.len() && #[trigger] sections[i].duration@ / 1_000_000_000 > (
            session_length_minutes * 60) / 2 ==> session_warnings(
                sections,
                session_length_minutes,
            ).contains(long_video_warning(*sections[i])),
{
    assert forall|i: int|
        0 <= i < sections.len() && #[trigger] sections[i].duration@ / 1_000_000_000 > (
        session_length_minutes * 60) / 2 implies session_warnings(
            sections,
            session_length_minutes,
        ).contains(long_video_warning(*sections[i])) by {
        let half = (session_length_minutes * 60) / 2;
        lemma_long_video_listed(sections, half, i);
        let tail = long_video_warnings(sections, half);
        let w = long_video_warning(*sections[i]);
        let k = choose|k: int| 0 <= k < tail.len() && tail[k] == w;
        let all = session_warnings(sections, session_length_minutes);
        let limit_seconds = session_length_minutes * 60;
        let h = if referenced_nanos(sections) > limit_seconds * 1_000_000_000 {
            seq![overflow_warning(referenced_nanos(sections) / 1_000_000_000, limit_seconds)]
        } else {
            seq![]
        };
        assert(all == h + tail);
        assert(all[h.len() + k] == w);
    }
}

/// A session longer than its target is warned about first, with its total
/// and its target in whole seconds; a session within its target gets no
/// such warning, only the long-video ones.
pub proof fn lemma_overflow_warned_first(sections: Seq<&Section>, session_length_minutes: nat)
    ensures
        referenced_nanos(sections) > session_length_minutes * 60 * 1_000_000_000 ==> {
            &&& session_warnings(sections, session_length_minutes).len() >= 1
            &&& session_warnings(sections, session_length_minutes)[0] == overflow_warning(
                referenced_nanos(sections) / 1_000_000_000,
                session_length_minutes * 60,
            )
        },
        referenced_nanos(sections) <= session_length_minutes * 60 * 1_000_000_000 ==> session_warnings(
            sections,
            session_length_minutes,
        ).len() == long_video_warnings(sections, (session_length_minutes * 60) / 2).len(),
{
}

/// A prefix of the sections never sums to more than all of them.
pub proof fn lemma_referenced_nanos_prefix(sections: Seq<&Section>, k: int)
    requires
        0 <= k <= sections.len(),
    ensures
        referenced_nanos(sections.subrange(0, k)) <= referenced_nanos(sections),
    decreases sections.len() - k,
{
    if k < sections.len() {
        lemma_referenced_nanos_prefix(sections, k + 1);
        assert(sections.subrange(0, k + 1).drop_last() =~= sections.subrange(0, k));
    } else {
        assert(sections.subrange(0, k) =~= sections);
    }
}

/// Checks a session's videos against the session length and lists the
/// warnings; the videos' total must fit in a duration.
pub fn validate_session_duration(sections: &[&Section], settings: &PlanSettings) -> (r: Vec<
    String,
>)
    requires
        referenced_nanos(sections@) <= max_duration_nanos(),
    ensures
        r@.map_values(|w: String| w@) == session_warnings(
            sections@,
            settings.session_length_minutes as nat,
        ),
{
    let mut total = Duration::zero();
    let mut i: usize = 0;
    while i < sections.len()
        invariant
            i <= sections@.len(),
            referenced_nanos(sections@) <= max_duration_nanos(),
            total@ == referenced_nanos(sections@.subrange(0, i as int)),
        decreases sections.len() - i,
    {
        proof {
            lemma_referenced_nanos_prefix(sections@, i + 1);
            assert(sections@.subrange(0, i + 1).drop_last() =~= sections@.subrange(0, i as int));
        }
        total = total.checked_add(&sections[i].duration).unwrap();
        i = i + 1;
    }
    assert(sections@.subrange(0, sections@.len() as int) =~= sections@);

    let limit_seconds = settings.session_length_minutes as u64 * 60;
    let session_limit = Duration::from_secs(limit_seconds);
    let mut warnings: Vec<String> = Vec::new();
    if total.is_longer_than(&session_limit) {
        let mut w = String::from_str("Session duration (");
        let total_text = format_duration(total);
        push_str_to(&mut w, total_text.as_str());
        push_str_to(&mut w, ") exceeds target (");
        let limit_text = format_duration(session_limit);
        push_str_to(&mut w, limit_text.as_str());
        push_str_to(&mut w, ")");
        warnings.push(w);
    }
    let ghost head = warnings@.map_values(|w: String| w@);
    let half = limit_seconds / 2;
    let mut j: usize = 0;
    while j < sections.len()
        invariant
            j <= sections@.len(),
            warnings@.map_values(|w: String| w@) == head + long_video_warnings(
                sections@.subrange(0, j as int),
                half as nat,
            ),
        decreases sections.len() - j,
    {
        let section = sections[j];
        proof {
            assert(sections@.subrange(0, j + 1).drop_last() =~= sections@.subrange(0, j as int));
            assert(sections@.subrange(0, j + 1).last() == section);
        }
        if section.duration.as_secs() > half {
            let mut w = String::from_str("Video '");
            push_str_to(&mut w, section.title.as_str());
            push_str_to(&mut w, "' is very long (");
            let d = format_duration(section.duration);
            push_str_to(&mut w, d.as_str());
            push_str_to(&mut w, ") for session length");
            let ghost before = warnings@;
            warnings.push(w);
            proof {
                assert(warnings@.map_values(|w: String| w@) =~= before.map_values(
                    |w: String| w@,
                ).push(long_video_warning(*section)));
            }
        }
        j = j + 1;
    }
    assert(sections@.subrange(0, sections@.len() as int) =~= sections@);
    assert(warnings@.map_values(|w: String| w@) =~= session_warnings(
        sections@,
        settings.session_length_minutes as nat,
    ));
    warnings
}

} // verus!
