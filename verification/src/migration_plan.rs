//! Which schema migrations to apply or undo. The caller runs each step
//! against the database, in order, and stops at the first failure.
use vstd::prelude::*;
use crate::text::{push_signed_decimal, push_str_to, signed_decimal};

verus! {

/// The schema version the migrations lead to.
pub const CURRENT_SCHEMA_VERSION: i32 = 4;

/// Whether a migration is registered for a version: versions 1 to 4.
pub open spec fn is_registered(version: int) -> bool {
    1 <= version <= 4
}

/// Whether the migration of a version can be undone: only the index and
/// progress-table migrations (versions 3 and 4) can.
pub open spec fn can_roll_back(version: int) -> bool {
    version == 3 || version == 4
}

/// The name of the migration of a registered version.
pub fn migration_name(version: i32) -> (r: Option<&'static str>)
    ensures
        r is Some <==> is_registered(version as int),
{
    if version == 1 {
        Some("Initial version tracking setup")
    } else if version == 2 {
        Some("VideoMetadata enhancement with playlist_id and original_index")
    } else if version == 3 {
        Some("Add performance indexes for frequently queried columns")
    } else if version == 4 {
        Some("video_progress_tracking")
    } else {
        None
    }
}

/// Whether the migration of a version supports being undone.
pub fn supports_rollback(version: i32) -> (r: bool)
    ensures
        r == can_roll_back(version as int),
{
    version == 3 || version == 4
}

/// The versions to migrate through from `current`, ascending: every
/// registered version above it up to the current schema version.
pub open spec fn pending_versions(current: int) -> Seq<i32> {
    let first = if current + 1 < 1 {
        1
    } else {
        current + 1
    };
    if first > 4 {
        seq![]
    } else {
        Seq::new((4 - first + 1) as nat, |i: int| (first + i) as i32)
    }
}

/// The versions to apply, in order, to bring a database at version
/// `current` up to the current schema version.
pub fn pending_migrations(current: i32) -> (r: Vec<i32>)
    ensures
        r@ == pending_versions(current as int),
{
    let mut r: Vec<i32> = Vec::new();
    if current >= CURRENT_SCHEMA_VERSION {
        return r;
    }
    let mut v: i32 = if current < 0 {
        1
    } else {
        current + 1
    };
    let ghost first = v as int;
    while v <= CURRENT_SCHEMA_VERSION
        invariant
            1 <= first <= v <= 5,
            first == if current + 1 < 1 {
                1
            } else {
                current + 1
            },
            r@ == Seq::new((v - first) as nat, |i: int| (first + i) as i32),
        decreases 5 - v,
    {
        r.push(v);
        assert(r@ =~= Seq::new((v + 1 - first) as nat, |i: int| (first + i) as i32));
        v = v + 1;
    }
    r
}

/// Migrating brings any database to the current schema version: the
/// pending versions from `current` climb one by one from the first version
/// above it and end at the current version; a database already there has
/// none pending.
pub proof fn lemma_migration_reaches_current(current: int)
    ensures
        current >= 4 ==> pending_versions(current).len() == 0,
        current < 4 ==> {
            &&& pending_versions(current).len() > 0
            &&& pending_versions(current).last() == CURRENT_SCHEMA_VERSION
            &&& forall|i: int|
                0 <= i < pending_versions(current).len() ==> is_registered(
                    #[trigger] pending_versions(current)[i] as int,
                ) && pending_versions(current)[i] > current
            &&& forall|i: int|
                0 < i < pending_versions(current).len() ==> #[trigger] pending_versions(current)[i]
                    == pending_versions(current)[i - 1] + 1
        },
{
}

/// One step of a rollback.
#[derive(Clone, Debug, PartialEq)]
pub enum RollbackStep {
    /// Undo the migration of this version.
    Undo(i32),
    /// Stop with this error.
    Refuse(String),
}

/// A step's contents: the version undone, or the error text.
pub open spec fn step_view(s: RollbackStep) -> (int, Option<Seq<char>>) {
    match s {
        RollbackStep::Undo(v) => (v as int, None),
        RollbackStep::Refuse(m) => (0, Some(m@)),
    }
}

/// The steps of rolling back the registered versions from `v` down to
/// `low` (inclusive): each is undone in turn, until one that cannot be
/// undone stops the rollback with an error.
pub open spec fn rollback_steps(v: int, low: int) -> Seq<(int, Option<Seq<char>>)>
    decreases v - low + 1,
{
    if v < low {
        seq![]
    } else if !is_registered(v) {
        rollback_steps(v - 1, low)
    } else if can_roll_back(v) {
        seq![(v, None::<Seq<char>>)] + rollback_steps(v - 1, low)
    } else {
        seq![
            (
                0,
                Some(
                    "Migration version "@ + signed_decimal(v) + " does not support rollback"@,
                ),
            ),
        ]
    }
}

/// The steps of rolling a database at version `current` back to
/// `target_version`: an error when the target is not below the current
/// version, else the registered versions above the target, newest first.
pub fn rollback_plan(current: i32, target_version: i32) -> (r: Vec<RollbackStep>)
    ensures
        target_version >= current ==> r@.len() == 1 && (r@[0] matches RollbackStep::Refuse(m)
            && m@ == "Cannot rollback to version "@ + signed_decimal(target_version as int)
            + " from version "@ + signed_decimal(current as int)),
        target_version < current ==> r@.map_values(|s: RollbackStep| step_view(s))
            == rollback_steps(current as int, target_version + 1),
{
    let mut r: Vec<RollbackStep> = Vec::new();
    if target_version >= current {
        let mut m = String::from_str("Cannot rollback to version ");
        push_signed_decimal(&mut m, target_version as i64);
        push_str_to(&mut m, " from version ");
        push_signed_decimal(&mut m, current as i64);
        r.push(RollbackStep::Refuse(m));
        return r;
    }
    let low = target_version + 1;
    let mut v: i32 = current;
    while v >= low
        invariant
            target_version < current,
            low == target_version + 1,
            low - 1 <= v <= current,
            r@.map_values(|s: RollbackStep| step_view(s)) + rollback_steps(v as int, low as int)
                == rollback_steps(current as int, low as int),
        decreases v - low + 1,
    {
        let ghost before = r@;
        if 1 <= v && v <= CURRENT_SCHEMA_VERSION {
            if supports_rollback(v) {
                r.push(RollbackStep::Undo(v));
                assert(r@.map_values(|s: RollbackStep| step_view(s)) =~= before.map_values(
                    |s: RollbackStep| step_view(s),
                ) + seq![(v as int, None::<Seq<char>>)]);
                assert(r@.map_values(|s: RollbackStep| step_view(s)) + rollback_steps(
                    v - 1,
                    low as int,
                ) =~= before.map_values(|s: RollbackStep| step_view(s)) + rollback_steps(
                    v as int,
                    low as int,
                ));
            } else {
                let mut m = String::from_str("Migration version ");
                push_signed_decimal(&mut m, v as i64);
                push_str_to(&mut m, " does not support rollback");
                r.push(RollbackStep::Refuse(m));
                assert(r@.map_values(|s: RollbackStep| step_view(s)) =~= before.map_values(
                    |s: RollbackStep| step_view(s),
                ) + rollback_steps(v as int, low as int));
                return r;
            }
        }
        v = v - 1;
    }
    assert(r@.map_values(|s: RollbackStep| step_view(s)) =~= r@.map_values(
        |s: RollbackStep| step_view(s),
    ) + rollback_steps(v as int, low as int));
    r
}

} // verus!
