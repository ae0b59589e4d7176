//! Conversions of values read from SQLite columns, with the column error
//! each failure is reported as.
use vstd::prelude::*;
use crate::ids::{Uuid, uuid_parse};
use crate::text::push_str_to;
use crate::time::{UtcDateTime, chrono_accepts_timestamp, parse_rfc3339, rfc3339_instant, utc_from_timestamp};

verus! {

/// Storage classes of SQLite values (`rusqlite::types::Type`).
#[derive(Clone, Copy, Debug, PartialEq, Eq, Structural)]
pub enum ColumnType {
    Null,
    Integer,
    Real,
    Text,
    Blob,
}

/// A column that holds a value of the wrong kind: its index, what was
/// expected, and the storage class found (rusqlite's `InvalidColumnType`).
#[derive(Clone, Debug, PartialEq)]
pub struct ColumnError {
    pub index: usize,
    pub expected: String,
    pub column_type: ColumnType,
}

/// The error for column `index` that should have held `expected`.
pub open spec fn is_column_error(
    e: ColumnError,
    index: usize,
    expected: Seq<char>,
    column_type: ColumnType,
) -> bool {
    e.index == index && e.expected@ == expected && e.column_type == column_type
}

fn column_error(index: usize, expected: &str, column_type: ColumnType) -> (e: ColumnError)
    ensures
        is_column_error(e, index, expected@, column_type),
{
    ColumnError { index, expected: String::from_str(expected), column_type }
}

/// Reads a UUID from a text column; a text that is not a UUID is reported
/// for the column as an invalid "uuid".
pub fn parse_uuid_sqlite(s: &str, idx: usize) -> (r: Result<Uuid, ColumnError>)
    ensures
        match uuid_parse(s@) {
            Some(v) => r == Ok::<Uuid, ColumnError>(Uuid { value: v }),
            None => r matches Err(e) && is_column_error(e, idx, "uuid"@, ColumnType::Text),
        },
{
    match Uuid::parse_str(s) {
        Some(u) => Ok(u),
        None => Err(column_error(idx, "uuid", ColumnType::Text)),
    }
}

/// Reads an optional UUID: no text gives no UUID.
pub fn parse_optional_uuid_sqlite(opt: Option<String>, idx: usize) -> (r: Result<
    Option<Uuid>,
    ColumnError,
>)
    ensures
        match opt {
            None => r == Ok::<Option<Uuid>, ColumnError>(None),
            Some(s) => match uuid_parse(s@) {
                Some(v) => r == Ok::<Option<Uuid>, ColumnError>(Some(Uuid { value: v })),
                None => r matches Err(e) && is_column_error(e, idx, "uuid"@, ColumnType::Text),
            },
        },
{
    match opt {
        Some(s) => match parse_uuid_sqlite(s.as_str(), idx) {
            Ok(u) => Ok(Some(u)),
            Err(e) => Err(e),
        },
        None => Ok(None),
    }
}

/// Reads an RFC 3339 instant from a text column, converted to UTC.
pub fn parse_datetime_rfc3339_sqlite(s: &str, idx: usize) -> (r: Result<UtcDateTime, ColumnError>)
    ensures
        match rfc3339_instant(s@) {
            Some((secs, nanos)) => r == Ok::<UtcDateTime, ColumnError>(UtcDateTime { secs, nanos }),
            None => r matches Err(e) && is_column_error(
                e,
                idx,
                "rfc3339-datetime"@,
                ColumnType::Text,
            ),
        },
{
    match parse_rfc3339(s) {
        Some(dt) => Ok(dt),
        None => Err(column_error(idx, "rfc3339-datetime", ColumnType::Text)),
    }
}

/// Reads an instant stored as whole epoch seconds in an integer column.
pub fn datetime_from_unix_seconds_at(ts: i64, idx: usize) -> (r: Result<UtcDateTime, ColumnError>)
    ensures
        chrono_accepts_timestamp(ts, 0) ==> r == Ok::<UtcDateTime, ColumnError>(
            UtcDateTime { secs: ts, nanos: 0 },
        ),
        !chrono_accepts_timestamp(ts, 0) ==> (r matches Err(e) && is_column_error(
            e,
            idx,
            "epoch-seconds"@,
            ColumnType::Integer,
        )),
{
    match utc_from_timestamp(ts, 0) {
        Some(dt) => Ok(dt),
        None => Err(column_error(idx, "epoch-seconds", ColumnType::Integer)),
    }
}

/// Reads an optional instant stored as epoch seconds.
pub fn optional_datetime_from_unix_seconds_at(opt_ts: Option<i64>, idx: usize) -> (r: Result<
    Option<UtcDateTime>,
    ColumnError,
>)
    ensures
        match opt_ts {
            None => r == Ok::<Option<UtcDateTime>, ColumnError>(None),
            Some(ts) => if chrono_accepts_timestamp(ts, 0) {
                r == Ok::<Option<UtcDateTime>, ColumnError>(Some(UtcDateTime { secs: ts, nanos: 0 }))
            } else {
                r matches Err(e) && is_column_error(e, idx, "epoch-seconds"@, ColumnType::Integer)
            },
        },
{
    match opt_ts {
        Some(ts) => match datetime_from_unix_seconds_at(ts, idx) {
            Ok(dt) => Ok(Some(dt)),
            Err(e) => Err(e),
        },
        None => Ok(None),
    }
}


/// The error for a JSON column whose text did not decode: the expected
/// kind reads "json: " followed by the decoder's message.
pub fn json_column_error(idx: usize, detail: &str) -> (e: ColumnError)
    ensures
        is_column_error(e, idx, "json: "@ + detail@, ColumnType::Text),
{
    let mut expected = String::from_str("json: ");
    push_str_to(&mut expected, detail);
    ColumnError { index: idx, expected, column_type: ColumnType::Text }
}

} // verus!
