//! Instants in UTC, held as plain integers, and the calendar operations the
//! library takes from `chrono`.
use vstd::prelude::*;

verus! {

/// An instant in UTC: whole seconds since the Unix epoch and the
/// nanoseconds past that second (as `chrono::DateTime<Utc>` reports them
/// through `timestamp()` and `timestamp_subsec_nanos()`).
#[derive(Clone, Copy, Debug, PartialEq, Eq, Structural)]
pub struct UtcDateTime {
    pub secs: i64,
    pub nanos: u32,
}

/// Earliest epoch second chrono represents: January 1 of the year -262143.
pub open spec fn chrono_min_secs() -> int {
    -8_334_601_228_800
}

/// Latest epoch second chrono represents: the last second of December 31
/// of the year 262142.
pub open spec fn chrono_max_secs() -> int {
    8_210_266_876_799
}

/// The `(seconds, nanoseconds)` pairs that
/// `chrono::DateTime::<Utc>::from_timestamp` accepts: seconds within its
/// calendar range, and nanoseconds below one second, or below two seconds
/// (a leap second) in the last second of a minute.
pub open spec fn chrono_accepts_timestamp(secs: i64, nanos: u32) -> bool {
    &&& chrono_min_secs() <= secs <= chrono_max_secs()
    &&& (nanos < 1_000_000_000 || (nanos < 2_000_000_000 && (secs as int) % 60 == 59))
}

/// Name for what `chrono::DateTime::parse_from_rfc3339` followed by a
/// conversion to UTC yields for a text, as `(seconds, nanoseconds)`.
pub uninterp spec fn rfc3339_instant(s: Seq<char>) -> Option<(i64, u32)>;

/// Name for the text `chrono` writes for an instant in UTC with a format
/// pattern.
pub uninterp spec fn instant_text(secs: i64, nanos: u32, pattern: Seq<char>) -> Seq<char>;

/// The format patterns the library writes instants with: date and minute
/// (`"%Y-%m-%d %H:%M"`), and the long date (`"%B %d, %Y"`, as in
/// "March 05, 2024").
pub open spec fn known_pattern(pattern: Seq<char>) -> bool {
    pattern == "%Y-%m-%d %H:%M"@ || pattern == "%B %d, %Y"@
}

/// The date and minute of an instant, as `"%Y-%m-%d %H:%M"` writes it.
pub open spec fn calendar_minute_text(secs: i64, nanos: u32) -> Seq<char> {
    instant_text(secs, nanos, "%Y-%m-%d %H:%M"@)
}

/// The long date of an instant, as `"%B %d, %Y"` writes it.
pub open spec fn long_date_text(secs: i64, nanos: u32) -> Seq<char> {
    instant_text(secs, nanos, "%B %d, %Y"@)
}

/// Name for the text `chrono::DateTime::<Utc>::to_rfc3339` writes for an
/// instant.
pub uninterp spec fn rfc3339_text(secs: i64, nanos: u32) -> Seq<char>;

impl UtcDateTime {
    /// Whole seconds since the epoch (`DateTime::timestamp`).
    pub fn timestamp(&self) -> (r: i64)
        ensures
            r == self.secs,
    {
        self.secs
    }

    /// Whether this value denotes an instant `chrono` can represent.
    pub open spec fn is_representable(self) -> bool {
        chrono_accepts_timestamp(self.secs, self.nanos)
    }

    /// Asks `chrono` whether this value denotes an instant it represents.
    pub fn check_representable(&self) -> (r: bool)
        ensures
            r == chrono_accepts_timestamp(self.secs, self.nanos),
    {
        utc_from_timestamp(self.secs, self.nanos).is_some()
    }
}

/// `chrono::DateTime::<Utc>::from_timestamp`: the instant for the given
/// epoch seconds and nanoseconds, or `None` where chrono rejects them.
/// Claimed: the result is `Some` exactly on the accepted pairs, and it
/// carries the same seconds and nanoseconds back (chrono documents the
/// round trip with `timestamp` and `timestamp_subsec_nanos`).
#[verifier::external_body]
pub(crate) fn utc_from_timestamp(secs: i64, nanos: u32) -> (r: Option<UtcDateTime>)
    ensures
        r is Some <==> chrono_accepts_timestamp(secs, nanos),
        r is Some ==> r == Some(UtcDateTime { secs, nanos }),
{
    chrono::DateTime::<chrono::Utc>::from_timestamp(secs, nanos).map(
        |dt| UtcDateTime { secs: dt.timestamp(), nanos: dt.timestamp_subsec_nanos() },
    )
}

/// `chrono::Utc::now()`. Claimed: the instant is one chrono represents;
/// nothing is claimed of which instant.
#[verifier::external_body]
pub(crate) fn utc_now() -> (r: UtcDateTime)
    ensures
        chrono_accepts_timestamp(r.secs, r.nanos),
{
    let dt = chrono::Utc::now();
    UtcDateTime { secs: dt.timestamp(), nanos: dt.timestamp_subsec_nanos() }
}

/// `chrono::DateTime::parse_from_rfc3339(s)` converted to UTC. Claimed: the
/// result is the named parse of the text, and a parsed instant is one chrono
/// represents.
#[verifier::external_body]
pub(crate) fn parse_rfc3339(s: &str) -> (r: Option<UtcDateTime>)
    ensures
        r matches Some(dt) ==> rfc3339_instant(s@) == Some((dt.secs, dt.nanos)),
        r is None ==> rfc3339_instant(s@) is None,
        r matches Some(dt) ==> chrono_accepts_timestamp(dt.secs, dt.nanos),
{
    match chrono::DateTime::parse_from_rfc3339(s) {
        Ok(dt) => {
            let utc = dt.with_timezone(&chrono::Utc);
            Some(UtcDateTime { secs: utc.timestamp(), nanos: utc.timestamp_subsec_nanos() })
        },
        Err(_) => None,
    }
}

/// `dt.format(pattern).to_string()` for a representable instant and one of
/// the library's patterns (whose specifiers chrono all knows, so the text is
/// always written). Claimed: the text is the named rendering of the instant
/// with that pattern.
#[verifier::external_body]
pub(crate) fn format_instant(dt: UtcDateTime, pattern: &str) -> (r: String)
    requires
        chrono_accepts_timestamp(dt.secs, dt.nanos),
        known_pattern(pattern@),
    ensures
        r@ == instant_text(dt.secs, dt.nanos, pattern@),
{
    let value = chrono::DateTime::<chrono::Utc>::from_timestamp(dt.secs, dt.nanos).unwrap();
    value.format(pattern).to_string()
}

/// Whether an instant's RFC 3339 text reads back as the same instant: its
/// year lies in 0 to 9999, which chrono writes with four digits (other
/// years get a sign and more digits, which the RFC 3339 parser refuses),
/// and its nanosecond part is below one second (above, the text shows a
/// leap second).
pub open spec fn rfc3339_round_trips(t: UtcDateTime) -> bool {
    -62_167_219_200 <= t.secs <= 253_402_300_799 && t.nanos < 1_000_000_000
}

/// `dt.to_rfc3339()` for a representable instant. Claimed: the text is the
/// named RFC 3339 rendering of the instant, and for an instant of the years
/// 0 to 9999 with a nanosecond part below one second,
/// `DateTime::parse_from_rfc3339` reads the text back as the same instant
/// (the writer puts out every nonzero fractional digit and the "+00:00"
/// offset).
#[verifier::external_body]
pub(crate) fn to_rfc3339(dt: UtcDateTime) -> (r: String)
    requires
        chrono_accepts_timestamp(dt.secs, dt.nanos),
    ensures
        r@ == rfc3339_text(dt.secs, dt.nanos),
        rfc3339_round_trips(dt) ==> rfc3339_instant(r@) == Some((dt.secs, dt.nanos)),
{
    let value = chrono::DateTime::<chrono::Utc>::from_timestamp(dt.secs, dt.nanos).unwrap();
    value.to_rfc3339()
}

} // verus!
