//! Spans of time with nanosecond resolution, as `std::time::Duration`
//! represents them: whole seconds and a sub-second part below one second.
use vstd::prelude::*;

verus! {

/// Nanoseconds in one second.
pub const NANOS_PER_SEC: u32 = 1_000_000_000;

/// The largest span a `Duration` can hold, in nanoseconds.
pub open spec fn max_duration_nanos() -> nat {
    (u64::MAX as nat) * 1_000_000_000 + 999_999_999
}

/// A span of time. Its view is the total number of nanoseconds.
#[derive(Clone, Copy, Debug, PartialEq, Eq, Structural)]
pub struct Duration {
    secs: u64,
    nanos: u32,
}

impl View for Duration {
    type V = nat;

    closed spec fn view(&self) -> nat {
        (self.secs as nat) * 1_000_000_000 + self.nanos as nat
    }
}

impl Duration {
    #[verifier::type_invariant]
    spec fn well_formed(self) -> bool {
        self.nanos < NANOS_PER_SEC
    }

    /// A span of whole seconds (`Duration::from_secs`).
    pub fn from_secs(secs: u64) -> (d: Duration)
        ensures
            d@ == secs as nat * 1_000_000_000,
    {
        Duration { secs, nanos: 0 }
    }

    /// A span from seconds and nanoseconds (`Duration::new`): whole
    /// seconds among the nanoseconds carry into the seconds, which must
    /// then still fit in 64 bits.
    pub fn new(secs: u64, nanos: u32) -> (d: Duration)
        requires
            secs as nat + nanos as nat / 1_000_000_000 <= u64::MAX,
        ensures
            d@ == secs as nat * 1_000_000_000 + nanos as nat,
    {
        let carry: u32 = nanos / NANOS_PER_SEC;
        let rest: u32 = nanos % NANOS_PER_SEC;
        Duration { secs: secs + carry as u64, nanos: rest }
    }

    /// The empty span.
    pub fn zero() -> (d: Duration)
        ensures
            d@ == 0,
    {
        Duration { secs: 0, nanos: 0 }
    }

    /// Whole seconds in the span (`Duration::as_secs`).
    pub fn as_secs(&self) -> (r: u64)
        ensures
            r == self@ / 1_000_000_000,
    {
        proof {
            use_type_invariant(self);
        }
        self.secs
    }

    /// Nanoseconds past the last whole second (`Duration::subsec_nanos`).
    pub fn subsec_nanos(&self) -> (r: u32)
        ensures
            r == self@ % 1_000_000_000,
            r < NANOS_PER_SEC,
    {
        proof {
            use_type_invariant(self);
        }
        self.nanos
    }

    /// The sum of two spans, or `None` where it would not fit
    /// (`Duration::checked_add`).
    pub fn checked_add(&self, other: &Duration) -> (r: Option<Duration>)
        ensures
            r is Some <==> self@ + other@ <= max_duration_nanos(),
            r matches Some(d) ==> d@ == self@ + other@,
    {
        proof {
            use_type_invariant(self);
            use_type_invariant(other);
        }
        let nanos = self.nanos + other.nanos;
        let (carry, rest): (u64, u32) = if nanos >= NANOS_PER_SEC {
            (1, nanos - NANOS_PER_SEC)
        } else {
            (0, nanos)
        };
        if self.secs > u64::MAX - other.secs || self.secs + other.secs > u64::MAX - carry {
            None
        } else {
            Some(Duration { secs: self.secs + other.secs + carry, nanos: rest })
        }
    }

    /// Whether this span is strictly longer than `other` (`self > other`).
    pub fn is_longer_than(&self, other: &Duration) -> (r: bool)
        ensures
            r == (self@ > other@),
    {
        proof {
            use_type_invariant(self);
            use_type_invariant(other);
        }
        self.secs > other.secs || (self.secs == other.secs && self.nanos > other.nanos)
    }
}

/// Sum of a sequence of spans in nanoseconds.
pub open spec fn total_nanos(ds: Seq<Duration>) -> nat
    decreases ds.len(),
{
    if ds.len() == 0 {
        0
    } else {
        total_nanos(ds.drop_last()) + ds.last()@
    }
}

/// A prefix sum never exceeds the whole sum.
pub proof fn lemma_total_nanos_prefix(ds: Seq<Duration>, k: int)
    requires
        0 <= k <= ds.len(),
    ensures
        total_nanos(ds.subrange(0, k)) <= total_nanos(ds),
    decreases ds.len() - k,
{
    if k < ds.len() {
        lemma_total_nanos_prefix(ds, k + 1);
        assert(ds.subrange(0, k + 1).drop_last() =~= ds.subrange(0, k));
    } else {
        assert(ds.subrange(0, k) =~= ds);
    }
}

/// Sums spans, as `Iterator::sum` over durations does; the sum must fit
/// (std panics otherwise).
pub fn sum_durations(ds: &Vec<Duration>) -> (r: Duration)
    requires
        total_nanos(ds@) <= max_duration_nanos(),
    ensures
        r@ == total_nanos(ds@),
{
    let mut acc = Duration::zero();
    let mut i: usize = 0;
    while i < ds.len()
        invariant
            i <= ds.len(),
            total_nanos(ds@) <= max_duration_nanos(),
            acc@ == total_nanos(ds@.subrange(0, i as int)),
        decreases ds.len() - i,
    {
        proof {
            lemma_total_nanos_prefix(ds@, i + 1);
            assert(ds@.subrange(0, i + 1).drop_last() =~= ds@.subrange(0, i as int));
        }
        let next = acc.checked_add(&ds[i]);
        acc = next.unwrap();
        i = i + 1;
    }
    assert(ds@.subrange(0, ds@.len() as int) =~= ds@);
    acc
}

} // verus!
