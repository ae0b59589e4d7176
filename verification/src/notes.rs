//! Notes: the search query built from filters, the Markdown export, the
//! HTML rendering of a note, and the reading of a note from its columns.
use vstd::prelude::*;
use crate::course::Note;
use crate::ids::{Uuid, uuid_parse, uuid_text};
use crate::text::{decimal, push_decimal, push_str_to};
use crate::time::{
    UtcDateTime, calendar_minute_text, chrono_accepts_timestamp, format_instant,
    parse_rfc3339, rfc3339_instant, rfc3339_round_trips, rfc3339_text, to_rfc3339,
};

verus! {

/// A value bound to a `?` of a query.
#[derive(Clone, Debug, PartialEq)]
pub enum SqlParam {
    Text(String),
    Integer(i64),
}

/// A parameter's contents: its text, or its integer.
pub open spec fn param_view(p: SqlParam) -> (Option<Seq<char>>, int) {
    match p {
        SqlParam::Text(s) => (Some(s@), 0),
        SqlParam::Integer(n) => (None, n as int),
    }
}

/// Filters of an advanced note search; each present filter narrows the
/// result.
pub struct NoteSearchFilters<'a> {
    pub course_id: Option<Uuid>,
    /// `Some(Some(id))`: notes of that video; `Some(None)`: course-level
    /// notes; `None`: either.
    pub video_id: Option<Option<Uuid>>,
    pub content: Option<&'a str>,
    /// A note matches when any listed tag occurs in its tags.
    pub tags: Option<&'a [&'a str]>,
    pub timestamp_min: Option<u32>,
    pub timestamp_max: Option<u32>,
    pub created_after: Option<UtcDateTime>,
    pub created_before: Option<UtcDateTime>,
    pub updated_after: Option<UtcDateTime>,
    pub updated_before: Option<UtcDateTime>,
}

/// A query and its parameters.
pub struct NoteSearchQuery {
    pub sql: String,
    pub params: Vec<SqlParam>,
}

/// The columns every note query selects.
pub open spec fn note_select() -> Seq<char> {
    "SELECT id, course_id, video_id, content, timestamp, created_at, updated_at, tags FROM notes WHERE 1=1"@
}

/// "%<text>%": a LIKE pattern matching any text containing `text`.
pub open spec fn like_pattern(s: Seq<char>) -> Seq<char> {
    "%"@ + s + "%"@
}

/// "tags LIKE ?" for each of `n >= 1` tags, joined by " OR ".
pub open spec fn tag_alternatives(n: nat) -> Seq<char>
    decreases n,
{
    if n <= 1 {
        "tags LIKE ?"@
    } else {
        tag_alternatives((n - 1) as nat) + " OR tags LIKE ?"@
    }
}

/// The tag clause for `n` tags: a note matches when any of them occurs in
/// its tags; no tags add no clause.
pub open spec fn tag_clauses(n: nat) -> Seq<char> {
    if n == 0 {
        seq![]
    } else {
        " AND ("@ + tag_alternatives(n) + ") "@
    }
}

/// The tag parameters for a list of tags.
pub open spec fn tag_params(tags: Seq<&str>) -> Seq<(Option<Seq<char>>, int)>
    decreases tags.len(),
{
    if tags.len() == 0 {
        seq![]
    } else {
        tag_params(tags.drop_last()).push((Some(like_pattern(tags.last()@)), 0))
    }
}

/// Whether every instant in the filters can be written by chrono.
pub open spec fn filter_instants_representable(f: NoteSearchFilters) -> bool {
    &&& (f.created_after matches Some(d) ==> chrono_accepts_timestamp(d.secs, d.nanos))
    &&& (f.created_before matches Some(d) ==> chrono_accepts_timestamp(d.secs, d.nanos))
    &&& (f.updated_after matches Some(d) ==> chrono_accepts_timestamp(d.secs, d.nanos))
    &&& (f.updated_before matches Some(d) ==> chrono_accepts_timestamp(d.secs, d.nanos))
}

/// The clause and parameters a filter contributes: nothing when absent.
pub open spec fn opt_text(present: bool, s: Seq<char>) -> Seq<char> {
    if present {
        s
    } else {
        seq![]
    }
}

/// The instant clause contributed by one date filter.
pub open spec fn date_params(d: Option<UtcDateTime>) -> Seq<(Option<Seq<char>>, int)> {
    match d {
        Some(x) => seq![(Some(rfc3339_text(x.secs, x.nanos)), 0int)],
        None => seq![],
    }
}

/// The SQL text of an advanced search.
pub open spec fn search_sql(f: NoteSearchFilters) -> Seq<char> {
    note_select() + opt_text(f.course_id is Some, " AND course_id = ? "@) + (match f.video_id {
        Some(Some(_)) => " AND video_id = ? "@,
        Some(None) => " AND video_id IS NULL "@,
        None => seq![],
    }) + opt_text(f.content is Some, " AND content LIKE ? "@) + (match f.tags {
        Some(t) => tag_clauses(t@.len()),
        None => seq![],
    }) + opt_text(f.timestamp_min is Some, " AND timestamp >= ? "@) + opt_text(
        f.timestamp_max is Some,
        " AND timestamp <= ? "@,
    ) + opt_text(f.created_after is Some, " AND created_at >= ? "@) + opt_text(
        f.created_before is Some,
        " AND created_at <= ? "@,
    ) + opt_text(f.updated_after is Some, " AND updated_at >= ? "@) + opt_text(
        f.updated_before is Some,
        " AND updated_at <= ? "@,
    ) + " ORDER BY updated_at DESC"@
}

/// The parameters of an advanced search, in the order of their clauses.
pub open spec fn search_params(f: NoteSearchFilters) -> Seq<(Option<Seq<char>>, int)> {
    (match f.course_id {
        Some(c) => seq![(Some(uuid_text(c.value)), 0int)],
        None => seq![],
    }) + (match f.video_id {
        Some(Some(v)) => seq![(Some(uuid_text(v.value)), 0int)],
        _ => seq![],
    }) + (match f.content {
        Some(c) => seq![(Some(like_pattern(c@)), 0int)],
        None => seq![],
    }) + (match f.tags {
        Some(t) => tag_params(t@),
        None => seq![],
    }) + (match f.timestamp_min {
        Some(t) => seq![(None::<Seq<char>>, t as int)],
        None => seq![],
    }) + (match f.timestamp_max {
        Some(t) => seq![(None::<Seq<char>>, t as int)],
        None => seq![],
    }) + date_params(f.created_after) + date_params(f.created_before) + date_params(
        f.updated_after,
    ) + date_params(f.updated_before)
}

/// Builds "%<text>%".
pub fn like_pattern_of(s: &str) -> (r: String)
    ensures
        r@ == like_pattern(s@),
{
    let mut p = String::from_str("%");
    push_str_to(&mut p, s);
    push_str_to(&mut p, "%");
    p
}

/// The LIKE pattern `search_notes` matches note contents against.
pub fn search_pattern(query: &str) -> (r: String)
    ensures
        r@ == like_pattern(query@),
{
    like_pattern_of(query)
}

fn push_param(params: &mut Vec<SqlParam>, p: SqlParam)
    ensures
        final(params)@.map_values(|x: SqlParam| param_view(x)) == old(params)@.map_values(
            |x: SqlParam| param_view(x),
        ).push(param_view(p)),
{
    let ghost before = params@;
    params.push(p);
    assert(params@.map_values(|x: SqlParam| param_view(x)) =~= before.map_values(
        |x: SqlParam| param_view(x),
    ).push(param_view(p)));
}

fn push_date(sql: &mut String, params: &mut Vec<SqlParam>, d: Option<UtcDateTime>, clause: &str)
    requires
        d matches Some(x) ==> chrono_accepts_timestamp(x.secs, x.nanos),
    ensures
        final(sql)@ == old(sql)@ + opt_text(d is Some, clause@),
        final(params)@.map_values(|x: SqlParam| param_view(x)) == old(params)@.map_values(
            |x: SqlParam| param_view(x),
        ) + date_params(d),
{
    match d {
        Some(x) => {
            push_str_to(sql, clause);
            let ghost before = params@.map_values(|y: SqlParam| param_view(y));
            push_param(params, SqlParam::Text(to_rfc3339(x)));
            assert(before.push((Some(rfc3339_text(x.secs, x.nanos)), 0int)) =~= before
                + date_params(d));
        },
        None => {
            assert(sql@ =~= sql@ + opt_text(false, clause@));
            assert(params@.map_values(|y: SqlParam| param_view(y)) =~= params@.map_values(
                |y: SqlParam| param_view(y),
            ) + date_params(d));
        },
    }
}

/// Appends the tag clause and the tag parameters.
fn push_tag_filter(sql: &mut String, params: &mut Vec<SqlParam>, tags: &[&str])
    ensures
        final(sql)@ == old(sql)@ + tag_clauses(tags@.len()),
        final(params)@.map_values(|x: SqlParam| param_view(x)) == old(params)@.map_values(
            |x: SqlParam| param_view(x),
        ) + tag_params(tags@),
{
    let ghost sql0 = sql@;
    let ghost params0 = params@.map_values(|x: SqlParam| param_view(x));
    if tags.len() > 0 {
        push_str_to(sql, " AND (");
        push_str_to(sql, "tags LIKE ?");
        let mut k: usize = 1;
        while k < tags.len()
            invariant
                1 <= k <= tags@.len(),
                sql@ == sql0 + " AND ("@ + tag_alternatives(k as nat),
            decreases tags.len() - k,
        {
            push_str_to(sql, " OR tags LIKE ?");
            proof {
                assert(sql@ =~= sql0 + " AND ("@ + tag_alternatives((k + 1) as nat));
            }
            k = k + 1;
        }
        push_str_to(sql, ") ");
        assert(sql@ =~= sql0 + tag_clauses(tags@.len()));
    } else {
        assert(sql@ =~= sql0 + tag_clauses(tags@.len()));
    }
    let mut i: usize = 0;
    while i < tags.len()
        invariant
            i <= tags@.len(),
            params@.map_values(|x: SqlParam| param_view(x)) == params0 + tag_params(
                tags@.subrange(0, i as int),
            ),
        decreases tags.len() - i,
    {
        push_param(params, SqlParam::Text(like_pattern_of(tags[i])));
        proof {
            assert(tags@.subrange(0, i + 1).drop_last() =~= tags@.subrange(0, i as int));
            assert(params@.map_values(|x: SqlParam| param_view(x)) =~= params0 + tag_params(
                tags@.subrange(0, i + 1),
            ));
        }
        i = i + 1;
    }
    assert(tags@.subrange(0, tags@.len() as int) =~= tags@);
}

/// Builds the query of an advanced note search: one clause (and its
/// parameters) per present filter, newest update first.
pub fn search_notes_advanced_query(filters: &NoteSearchFilters) -> (q: NoteSearchQuery)
    requires
        filter_instants_representable(*filters),
    ensures
        q.sql@ == search_sql(*filters),
        q.params@.map_values(|x: SqlParam| param_view(x)) == search_params(*filters),
{
    let mut sql = String::from_str(
        "SELECT id, course_id, video_id, content, timestamp, created_at, updated_at, tags FROM notes WHERE 1=1",
    );
    let mut params: Vec<SqlParam> = Vec::new();
    let ghost f = *filters;
    let ghost mut sql_spec = note_select();
    let ghost mut params_spec: Seq<(Option<Seq<char>>, int)> = seq![];
    assert(params@.map_values(|x: SqlParam| param_view(x)) =~= params_spec);

    match filters.course_id {
        Some(c) => {
            push_str_to(&mut sql, " AND course_id = ? ");
            push_param(&mut params, SqlParam::Text(c.to_text()));
        },
        None => {},
    }
    proof {
        sql_spec = sql_spec + opt_text(f.course_id is Some, " AND course_id = ? "@);
        params_spec = params_spec + (match f.course_id {
            Some(c) => seq![(Some(uuid_text(c.value)), 0int)],
            None => seq![],
        });
    }
    assert(sql@ =~= sql_spec);
    assert(params@.map_values(|x: SqlParam| param_view(x)) =~= params_spec);

    match filters.video_id {
        Some(Some(v)) => {
            push_str_to(&mut sql, " AND video_id = ? ");
            push_param(&mut params, SqlParam::Text(v.to_text()));
        },
        Some(None) => {
            push_str_to(&mut sql, " AND video_id IS NULL ");
        },
        None => {},
    }
    proof {
        sql_spec = sql_spec + (match f.video_id {
            Some(Some(_)) => " AND video_id = ? "@,
            Some(None) => " AND video_id IS NULL "@,
            None => seq![],
        });
        params_spec = params_spec + (match f.video_id {
            Some(Some(v)) => seq![(Some(uuid_text(v.value)), 0int)],
            _ => seq![],
        });
    }
    assert(sql@ =~= sql_spec);
    assert(params@.map_values(|x: SqlParam| param_view(x)) =~= params_spec);

    match filters.content {
        Some(content) => {
            push_str_to(&mut sql, " AND content LIKE ? ");
            push_param(&mut params, SqlParam::Text(like_pattern_of(content)));
        },
        None => {},
    }
    proof {
        sql_spec = sql_spec + opt_text(f.content is Some, " AND content LIKE ? "@);
        params_spec = params_spec + (match f.content {
            Some(c) => seq![(Some(like_pattern(c@)), 0int)],
            None => seq![],
        });
    }
    assert(sql@ =~= sql_spec);
    assert(params@.map_values(|x: SqlParam| param_view(x)) =~= params_spec);

    match filters.tags {
        Some(tags) => push_tag_filter(&mut sql, &mut params, tags),
        None => {},
    }
    proof {
        sql_spec = sql_spec + (match f.tags {
            Some(t) => tag_clauses(t@.len()),
            None => seq![],
        });
        params_spec = params_spec + (match f.tags {
            Some(t) => tag_params(t@),
            None => seq![],
        });
    }
    assert(sql@ =~= sql_spec);
    assert(params@.map_values(|x: SqlParam| param_view(x)) =~= params_spec);

    match filters.timestamp_min {
        Some(t) => {
            push_str_to(&mut sql, " AND timestamp >= ? ");
            push_param(&mut params, SqlParam::Integer(t as i64));
        },
        None => {},
    }
    match filters.timestamp_max {
        Some(t) => {
            push_str_to(&mut sql, " AND timestamp <= ? ");
            push_param(&mut params, SqlParam::Integer(t as i64));
        },
        None => {},
    }
    proof {
        sql_spec = sql_spec + opt_text(f.timestamp_min is Some, " AND timestamp >= ? "@) + opt_text(
            f.timestamp_max is Some,
            " AND timestamp <= ? "@,
        );
        params_spec = params_spec + (match f.timestamp_min {
            Some(t) => seq![(None::<Seq<char>>, t as int)],
            None => seq![],
        }) + (match f.timestamp_max {
            Some(t) => seq![(None::<Seq<char>>, t as int)],
            None => seq![],
        });
    }
    assert(sql@ =~= sql_spec);
    assert(params@.map_values(|x: SqlParam| param_view(x)) =~= params_spec);

    push_date(&mut sql, &mut params, filters.created_after, " AND created_at >= ? ");
    push_date(&mut sql, &mut params, filters.created_before, " AND created_at <= ? ");
    push_date(&mut sql, &mut params, filters.updated_after, " AND updated_at >= ? ");
    push_date(&mut sql, &mut params, filters.updated_before, " AND updated_at <= ? ");
    push_str_to(&mut sql, " ORDER BY updated_at DESC");
    assert(sql@ =~= search_sql(f));
    assert(params@.map_values(|x: SqlParam| param_view(x)) =~= search_params(f));
    NoteSearchQuery { sql, params }
}

/// Whether `after` is `before` with `piece` put in at one place.
pub open spec fn is_insertion<A>(before: Seq<A>, after: Seq<A>, piece: Seq<A>) -> bool {
    exists|k: int|
        0 <= k <= before.len() && after == before.subrange(0, k) + piece + before.subrange(
            k,
            before.len() as int,
        )
}

proof fn lemma_insertion_witness<A>(pre: Seq<A>, piece: Seq<A>, post: Seq<A>)
    ensures
        is_insertion(pre + post, pre + piece + post, piece),
{
    let k = pre.len() as int;
    assert((pre + post).subrange(0, k) =~= pre);
    assert((pre + post).subrange(k, (pre + post).len() as int) =~= post);
}

/// SQL text shared by the searches that differ only in their creation
/// bounds: every clause before them.
spec fn clauses_before_created(f: NoteSearchFilters) -> Seq<char> {
    clauses_before_timestamps(f) + opt_text(f.timestamp_min is Some, " AND timestamp >= ? "@)
        + opt_text(f.timestamp_max is Some, " AND timestamp <= ? "@)
}

/// SQL text before the timestamp bounds.
spec fn clauses_before_timestamps(f: NoteSearchFilters) -> Seq<char> {
    note_select() + opt_text(f.course_id is Some, " AND course_id = ? "@) + (match f.video_id {
        Some(Some(_)) => " AND video_id = ? "@,
        Some(None) => " AND video_id IS NULL "@,
        None => seq![],
    }) + opt_text(f.content is Some, " AND content LIKE ? "@) + (match f.tags {
        Some(t) => tag_clauses(t@.len()),
        None => seq![],
    })
}

/// SQL text after the creation bounds.
spec fn clauses_after_created(f: NoteSearchFilters) -> Seq<char> {
    opt_text(f.updated_after is Some, " AND updated_at >= ? "@) + opt_text(
        f.updated_before is Some,
        " AND updated_at <= ? "@,
    ) + " ORDER BY updated_at DESC"@
}

/// Parameters before the creation bounds.
spec fn params_before_created(f: NoteSearchFilters) -> Seq<(Option<Seq<char>>, int)> {
    params_before_timestamps(f) + (match f.timestamp_min {
        Some(t) => seq![(None::<Seq<char>>, t as int)],
        None => seq![],
    }) + (match f.timestamp_max {
        Some(t) => seq![(None::<Seq<char>>, t as int)],
        None => seq![],
    })
}

/// Parameters before the timestamp bounds.
spec fn params_before_timestamps(f: NoteSearchFilters) -> Seq<(Option<Seq<char>>, int)> {
    (match f.course_id {
        Some(c) => seq![(Some(uuid_text(c.value)), 0int)],
        None => seq![],
    }) + (match f.video_id {
        Some(Some(v)) => seq![(Some(uuid_text(v.value)), 0int)],
        _ => seq![],
    }) + (match f.content {
        Some(c) => seq![(Some(like_pattern(c@)), 0int)],
        None => seq![],
    }) + (match f.tags {
        Some(t) => tag_params(t@),
        None => seq![],
    })
}

/// Regrouping a left-nested sum around its second part.
proof fn lemma_regroup<A>(p: Seq<A>, x: Seq<A>, u: Seq<A>, v: Seq<A>, o: Seq<A>)
    ensures
        (((p + x) + u) + v) + o == p + x + ((u + v) + o),
{
    assert((((p + x) + u) + v) + o =~= p + x + ((u + v) + o));
}

/// Regrouping a left-nested sum of eight parts after its second part.
proof fn lemma_regroup8<A>(p: Seq<A>, x: Seq<A>, a: Seq<A>, b: Seq<A>, c: Seq<A>, d: Seq<A>, e: Seq<A>, o: Seq<A>)
    ensures
        ((((((p + x) + a) + b) + c) + d) + e) + o == (p + x) + (((((a + b) + c) + d) + e) + o),
{
    assert(((((((p + x) + a) + b) + c) + d) + e) + o =~= (p + x) + (((((a + b) + c) + d) + e) + o));
}

/// Regrouping a left-nested sum of seven parts after its second part.
proof fn lemma_regroup7<A>(p: Seq<A>, x: Seq<A>, a: Seq<A>, b: Seq<A>, c: Seq<A>, d: Seq<A>, o: Seq<A>)
    ensures
        (((((p + x) + a) + b) + c) + d) + o == (p + x) + ((((a + b) + c) + d) + o),
{
    assert((((((p + x) + a) + b) + c) + d) + o =~= (p + x) + ((((a + b) + c) + d) + o));
}

/// Regrouping a left-nested sum of six parts after its second part.
proof fn lemma_regroup6<A>(p: Seq<A>, x: Seq<A>, a: Seq<A>, b: Seq<A>, c: Seq<A>, o: Seq<A>)
    ensures
        ((((p + x) + a) + b) + c) + o == (p + x) + (((a + b) + c) + o),
{
    assert(((((p + x) + a) + b) + c) + o =~= (p + x) + (((a + b) + c) + o));
}

/// Adding nothing changes nothing.
proof fn lemma_add_nothing<A>(p: Seq<A>, empty: Seq<A>)
    requires
        empty.len() == 0,
    ensures
        p + empty == p,
{
    assert(p + empty =~= p);
}

/// A "created before" filter bounds the creation time from above: added to
/// a search without one, it puts exactly " AND created_at <= ? " into the
/// SQL and the instant's RFC 3339 text into the parameters, and changes
/// nothing else.
pub proof fn lemma_created_before_is_upper_bound(f: NoteSearchFilters, d: UtcDateTime)
    requires
        f.created_before is None,
    ensures
        is_insertion(
            search_sql(f),
            search_sql(NoteSearchFilters { created_before: Some(d), ..f }),
            " AND created_at <= ? "@,
        ),
        is_insertion(
            search_params(f),
            search_params(NoteSearchFilters { created_before: Some(d), ..f }),
            seq![(Some(rfc3339_text(d.secs, d.nanos)), 0int)],
        ),
{
    let g = NoteSearchFilters { created_before: Some(d), ..f };
    let clause = " AND created_at <= ? "@;
    let pre = clauses_before_created(f) + opt_text(f.created_after is Some, " AND created_at >= ? "@);
    let u = opt_text(f.updated_after is Some, " AND updated_at >= ? "@);
    let v = opt_text(f.updated_before is Some, " AND updated_at <= ? "@);
    let o = " ORDER BY updated_at DESC"@;
    let empty = opt_text(false, clause);
    assert(empty =~= Seq::<char>::empty());
    assert(clauses_before_created(g) == clauses_before_created(f));
    assert(search_sql(f) == (((pre + empty) + u) + v) + o);
    assert(search_sql(g) == (((pre + clause) + u) + v) + o);
    lemma_regroup(pre, empty, u, v, o);
    lemma_regroup(pre, clause, u, v, o);
    assert(pre + empty == pre);
    lemma_insertion_witness(pre, clause, (u + v) + o);

    let piece = seq![(Some(rfc3339_text(d.secs, d.nanos)), 0int)];
    let pp = params_before_created(f);
    let pa = date_params(f.created_after);
    let pu = date_params(f.updated_after);
    let pv = date_params(f.updated_before);
    let pempty = date_params(f.created_before);
    assert(pempty =~= Seq::<(Option<Seq<char>>, int)>::empty());
    assert(params_before_created(g) == params_before_created(f));
    assert(search_params(f) == (((pp + pa) + pempty) + pu) + pv);
    assert(search_params(g) == (((pp + pa) + piece) + pu) + pv);
    assert((((pp + pa) + pempty) + pu) + pv =~= (pp + pa) + (pu + pv));
    assert((((pp + pa) + piece) + pu) + pv =~= (pp + pa) + piece + (pu + pv));
    lemma_insertion_witness(pp + pa, piece, pu + pv);
}

/// A "created after" filter bounds the creation time from below: added to
/// a search without one, it puts exactly " AND created_at >= ? " into the
/// SQL and the instant's RFC 3339 text into the parameters, and changes
/// nothing else.
pub proof fn lemma_created_after_is_lower_bound(f: NoteSearchFilters, d: UtcDateTime)
    requires
        f.created_after is None,
    ensures
        is_insertion(
            search_sql(f),
            search_sql(NoteSearchFilters { created_after: Some(d), ..f }),
            " AND created_at >= ? "@,
        ),
        is_insertion(
            search_params(f),
            search_params(NoteSearchFilters { created_after: Some(d), ..f }),
            seq![(Some(rfc3339_text(d.secs, d.nanos)), 0int)],
        ),
{
    let g = NoteSearchFilters { created_after: Some(d), ..f };
    let clause = " AND created_at >= ? "@;
    let pre = clauses_before_created(f);
    let b = opt_text(f.created_before is Some, " AND created_at <= ? "@);
    let u = opt_text(f.updated_after is Some, " AND updated_at >= ? "@);
    let v = opt_text(f.updated_before is Some, " AND updated_at <= ? "@);
    let o = " ORDER BY updated_at DESC"@;
    let empty = opt_text(false, clause);
    assert(empty =~= Seq::<char>::empty());
    assert(clauses_before_created(g) == clauses_before_created(f));
    assert(search_sql(f) == ((((pre + empty) + b) + u) + v) + o);
    assert(search_sql(g) == ((((pre + clause) + b) + u) + v) + o);
    assert(((((pre + empty) + b) + u) + v) + o =~= pre + (((b + u) + v) + o));
    assert(((((pre + clause) + b) + u) + v) + o =~= pre + clause + (((b + u) + v) + o));
    lemma_insertion_witness(pre, clause, ((b + u) + v) + o);

    let piece = seq![(Some(rfc3339_text(d.secs, d.nanos)), 0int)];
    let pp = params_before_created(f);
    let pb = date_params(f.created_before);
    let pu = date_params(f.updated_after);
    let pv = date_params(f.updated_before);
    let pempty = date_params(f.created_after);
    assert(pempty =~= Seq::<(Option<Seq<char>>, int)>::empty());
    assert(params_before_created(g) == params_before_created(f));
    assert(search_params(f) == (((pp + pempty) + pb) + pu) + pv);
    assert(search_params(g) == (((pp + piece) + pb) + pu) + pv);
    assert((((pp + pempty) + pb) + pu) + pv =~= pp + ((pb + pu) + pv));
    assert((((pp + piece) + pb) + pu) + pv =~= pp + piece + ((pb + pu) + pv));
    lemma_insertion_witness(pp, piece, (pb + pu) + pv);
}

/// " at <t>s" for a timestamp, nothing without one.
pub open spec fn timestamp_suffix(t: Option<u32>) -> Seq<char> {
    match t {
        Some(v) => " at "@ + decimal(v as nat) + "s"@,
        None => seq![],
    }
}

/// The Markdown block of one note in a course export.
pub open spec fn course_note_block(n: Note) -> Seq<char> {
    "### "@ + (if n.video_id is Some {
        "Video Note"@ + timestamp_suffix(n.timestamp)
    } else {
        "Course Note"@
    }) + " ("@ + calendar_minute_text(n.created_at.secs, n.created_at.nanos) + ")\n"@
        + n.content@ + "\n\n---\n\n"@
}

/// The Markdown block of one note in a video export.
pub open spec fn video_note_block(n: Note) -> Seq<char> {
    "### Video Note"@ + timestamp_suffix(n.timestamp) + " ("@ + calendar_minute_text(
        n.created_at.secs,
        n.created_at.nanos,
    ) + ")\n"@ + n.content@ + "\n\n---\n\n"@
}

/// Blocks of several notes, in order.
pub open spec fn course_export(notes: Seq<Note>) -> Seq<char>
    decreases notes.len(),
{
    if notes.len() == 0 {
        seq![]
    } else {
        course_export(notes.drop_last()) + course_note_block(notes.last())
    }
}

/// Blocks of several notes of a video, in order.
pub open spec fn video_export(notes: Seq<Note>) -> Seq<char>
    decreases notes.len(),
{
    if notes.len() == 0 {
        seq![]
    } else {
        video_export(notes.drop_last()) + video_note_block(notes.last())
    }
}

/// An "updated after" filter bounds the update time from below: added to a
/// search without one, it puts exactly " AND updated_at >= ? " into the SQL
/// and the instant's RFC 3339 text into the parameters, and changes nothing
/// else.
pub proof fn lemma_updated_after_is_lower_bound(f: NoteSearchFilters, d: UtcDateTime)
    requires
        f.updated_after is None,
    ensures
        is_insertion(
            search_sql(f),
            search_sql(NoteSearchFilters { updated_after: Some(d), ..f }),
            " AND updated_at >= ? "@,
        ),
        is_insertion(
            search_params(f),
            search_params(NoteSearchFilters { updated_after: Some(d), ..f }),
            seq![(Some(rfc3339_text(d.secs, d.nanos)), 0int)],
        ),
{
    let g = NoteSearchFilters { updated_after: Some(d), ..f };
    let clause = " AND updated_at >= ? "@;
    let pre = clauses_before_created(f) + opt_text(f.created_after is Some, " AND created_at >= ? "@)
        + opt_text(f.created_before is Some, " AND created_at <= ? "@);
    let v = opt_text(f.updated_before is Some, " AND updated_at <= ? "@);
    let o = " ORDER BY updated_at DESC"@;
    let empty = opt_text(false, clause);
    assert(empty =~= Seq::<char>::empty());
    assert(clauses_before_created(g) == clauses_before_created(f));
    assert(search_sql(f) == ((pre + empty) + v) + o);
    assert(search_sql(g) == ((pre + clause) + v) + o);
    assert(((pre + empty) + v) + o =~= pre + (v + o));
    assert(((pre + clause) + v) + o =~= pre + clause + (v + o));
    lemma_insertion_witness(pre, clause, v + o);

    let piece = seq![(Some(rfc3339_text(d.secs, d.nanos)), 0int)];
    let pp = params_before_created(f) + date_params(f.created_after) + date_params(f.created_before);
    let pv = date_params(f.updated_before);
    let pempty = date_params(f.updated_after);
    assert(pempty =~= Seq::<(Option<Seq<char>>, int)>::empty());
    assert(params_before_created(g) == params_before_created(f));
    assert(search_params(f) == (pp + pempty) + pv);
    assert(search_params(g) == (pp + piece) + pv);
    assert((pp + pempty) + pv =~= pp + pv);
    lemma_insertion_witness(pp, piece, pv);
}

/// An "updated before" filter bounds the update time from above: added to
/// a search without one, it puts exactly " AND updated_at <= ? " into the
/// SQL and the instant's RFC 3339 text into the parameters, and changes
/// nothing else.
pub proof fn lemma_updated_before_is_upper_bound(f: NoteSearchFilters, d: UtcDateTime)
    requires
        f.updated_before is None,
    ensures
        is_insertion(
            search_sql(f),
            search_sql(NoteSearchFilters { updated_before: Some(d), ..f }),
            " AND updated_at <= ? "@,
        ),
        is_insertion(
            search_params(f),
            search_params(NoteSearchFilters { updated_before: Some(d), ..f }),
            seq![(Some(rfc3339_text(d.secs, d.nanos)), 0int)],
        ),
{
    let g = NoteSearchFilters { updated_before: Some(d), ..f };
    let clause = " AND updated_at <= ? "@;
    let pre = clauses_before_created(f) + opt_text(f.created_after is Some, " AND created_at >= ? "@)
        + opt_text(f.created_before is Some, " AND created_at <= ? "@) + opt_text(
        f.updated_after is Some,
        " AND updated_at >= ? "@,
    );
    let o = " ORDER BY updated_at DESC"@;
    let empty = opt_text(false, clause);
    assert(empty =~= Seq::<char>::empty());
    assert(clauses_before_created(g) == clauses_before_created(f));
    assert(search_sql(f) == (pre + empty) + o);
    assert(search_sql(g) == (pre + clause) + o);
    assert((pre + empty) + o =~= pre + o);
    lemma_insertion_witness(pre, clause, o);

    let nothing = Seq::<(Option<Seq<char>>, int)>::empty();
    let piece = seq![(Some(rfc3339_text(d.secs, d.nanos)), 0int)];
    let pp = params_before_created(f) + date_params(f.created_after) + date_params(f.created_before)
        + date_params(f.updated_after);
    let pempty = date_params(f.updated_before);
    assert(pempty =~= nothing);
    assert(params_before_created(g) == params_before_created(f));
    assert(search_params(f) == pp + pempty);
    assert(search_params(g) == pp + piece);
    assert(pp + pempty =~= pp + nothing);
    assert(pp + piece =~= pp + piece + nothing);
    lemma_insertion_witness(pp, piece, nothing);
}

/// A lowest timestamp bounds the note's video position from below: added to
/// a search without one, it puts exactly " AND timestamp >= ? " into the
/// SQL and the timestamp into the parameters, and changes nothing else.
pub proof fn lemma_timestamp_min_is_lower_bound(f: NoteSearchFilters, t: u32)
    requires
        f.timestamp_min is None,
    ensures
        is_insertion(
            search_sql(f),
            search_sql(NoteSearchFilters { timestamp_min: Some(t), ..f }),
            " AND timestamp >= ? "@,
        ),
        is_insertion(
            search_params(f),
            search_params(NoteSearchFilters { timestamp_min: Some(t), ..f }),
            seq![(None::<Seq<char>>, t as int)],
        ),
{
    let g = NoteSearchFilters { timestamp_min: Some(t), ..f };
    let clause = " AND timestamp >= ? "@;
    let pre = clauses_before_timestamps(f);
    let mx = opt_text(f.timestamp_max is Some, " AND timestamp <= ? "@);
    let ca = opt_text(f.created_after is Some, " AND created_at >= ? "@);
    let cb = opt_text(f.created_before is Some, " AND created_at <= ? "@);
    let u = opt_text(f.updated_after is Some, " AND updated_at >= ? "@);
    let v = opt_text(f.updated_before is Some, " AND updated_at <= ? "@);
    let o = " ORDER BY updated_at DESC"@;
    let post = mx + ca + cb + u + v + o;
    let empty = opt_text(false, clause);
    assert(empty =~= Seq::<char>::empty());
    assert(clauses_before_timestamps(g) == clauses_before_timestamps(f));
    assert(search_sql(f) == ((((((pre + empty) + mx) + ca) + cb) + u) + v) + o);
    assert(search_sql(g) == ((((((pre + clause) + mx) + ca) + cb) + u) + v) + o);
    lemma_regroup8(pre, empty, mx, ca, cb, u, v, o);
    lemma_regroup8(pre, clause, mx, ca, cb, u, v, o);
    lemma_add_nothing(pre, empty);
    lemma_insertion_witness(pre, clause, post);

    let piece = seq![(None::<Seq<char>>, t as int)];
    let pp = params_before_timestamps(f);
    let pmx = match f.timestamp_max {
        Some(x) => seq![(None::<Seq<char>>, x as int)],
        None => seq![],
    };
    let pmn = match f.timestamp_min {
        Some(x) => seq![(None::<Seq<char>>, x as int)],
        None => seq![],
    };
    let pa = date_params(f.created_after);
    let pb = date_params(f.created_before);
    let pu = date_params(f.updated_after);
    let pv = date_params(f.updated_before);
    let ppost = pmx + pa + pb + pu + pv;
    assert(pmn =~= Seq::<(Option<Seq<char>>, int)>::empty());
    assert(params_before_timestamps(g) == params_before_timestamps(f));
    assert(search_params(f) == (((((pp + pmn) + pmx) + pa) + pb) + pu) + pv);
    assert(search_params(g) == (((((pp + piece) + pmx) + pa) + pb) + pu) + pv);
    lemma_regroup7(pp, pmn, pmx, pa, pb, pu, pv);
    lemma_regroup7(pp, piece, pmx, pa, pb, pu, pv);
    lemma_add_nothing(pp, pmn);
    lemma_insertion_witness(pp, piece, ppost);
}

/// A highest timestamp bounds the note's video position from above: added
/// to a search without one, it puts exactly " AND timestamp <= ? " into the
/// SQL and the timestamp into the parameters, and changes nothing else.
pub proof fn lemma_timestamp_max_is_upper_bound(f: NoteSearchFilters, t: u32)
    requires
        f.timestamp_max is None,
    ensures
        is_insertion(
            search_sql(f),
            search_sql(NoteSearchFilters { timestamp_max: Some(t), ..f }),
            " AND timestamp <= ? "@,
        ),
        is_insertion(
            search_params(f),
            search_params(NoteSearchFilters { timestamp_max: Some(t), ..f }),
            seq![(None::<Seq<char>>, t as int)],
        ),
{
    let g = NoteSearchFilters { timestamp_max: Some(t), ..f };
    let clause = " AND timestamp <= ? "@;
    let pre = clauses_before_timestamps(f) + opt_text(f.timestamp_min is Some, " AND timestamp >= ? "@);
    let ca = opt_text(f.created_after is Some, " AND created_at >= ? "@);
    let cb = opt_text(f.created_before is Some, " AND created_at <= ? "@);
    let u = opt_text(f.updated_after is Some, " AND updated_at >= ? "@);
    let v = opt_text(f.updated_before is Some, " AND updated_at <= ? "@);
    let o = " ORDER BY updated_at DESC"@;
    let post = ca + cb + u + v + o;
    let empty = opt_text(false, clause);
    assert(empty =~= Seq::<char>::empty());
    assert(clauses_before_timestamps(g) == clauses_before_timestamps(f));
    assert(search_sql(f) == (((((pre + empty) + ca) + cb) + u) + v) + o);
    assert(search_sql(g) == (((((pre + clause) + ca) + cb) + u) + v) + o);
    lemma_regroup7(pre, empty, ca, cb, u, v, o);
    lemma_regroup7(pre, clause, ca, cb, u, v, o);
    lemma_add_nothing(pre, empty);
    lemma_insertion_witness(pre, clause, post);

    let piece = seq![(None::<Seq<char>>, t as int)];
    let pp = params_before_timestamps(f) + (match f.timestamp_min {
        Some(x) => seq![(None::<Seq<char>>, x as int)],
        None => seq![],
    });
    let pmx = match f.timestamp_max {
        Some(x) => seq![(None::<Seq<char>>, x as int)],
        None => seq![],
    };
    let pa = date_params(f.created_after);
    let pb = date_params(f.created_before);
    let pu = date_params(f.updated_after);
    let pv = date_params(f.updated_before);
    let ppost = pa + pb + pu + pv;
    assert(pmx =~= Seq::<(Option<Seq<char>>, int)>::empty());
    assert(params_before_timestamps(g) == params_before_timestamps(f));
    assert(search_params(f) == ((((pp + pmx) + pa) + pb) + pu) + pv);
    assert(search_params(g) == ((((pp + piece) + pa) + pb) + pu) + pv);
    lemma_regroup6(pp, pmx, pa, pb, pu, pv);
    lemma_regroup6(pp, piece, pa, pb, pu, pv);
    lemma_add_nothing(pp, pmx);
    lemma_insertion_witness(pp, piece, ppost);
}

/// How a note is headed in a course export: a note of a video is headed
/// "Video Note" with its timestamp, exactly as in that video's export; a
/// course-level note is headed "Course Note".
pub proof fn lemma_course_export_headings(n: Note)
    ensures
        n.video_id is Some ==> course_note_block(n) == video_note_block(n),
        n.video_id is Some ==> course_note_block(n).subrange(
            0,
            14 + timestamp_suffix(n.timestamp).len() as int,
        ) == "### Video Note"@ + timestamp_suffix(n.timestamp),
        n.video_id is None ==> course_note_block(n).subrange(0, 15) == "### Course Note"@,
{
    reveal_strlit("### ");
    reveal_strlit("Video Note");
    reveal_strlit("### Video Note");
    reveal_strlit("Course Note");
    reveal_strlit("### Course Note");
    let rest = " ("@ + calendar_minute_text(n.created_at.secs, n.created_at.nanos) + ")\n"@
        + n.content@ + "\n\n---\n\n"@;
    if n.video_id is Some {
        let head = "### Video Note"@ + timestamp_suffix(n.timestamp);
        assert(course_note_block(n) =~= head + rest);
        assert(video_note_block(n) =~= head + rest);
        assert((head + rest).subrange(0, head.len() as int) =~= head);
    } else {
        let head = "### Course Note"@;
        assert(course_note_block(n) =~= head + rest);
        assert((head + rest).subrange(0, 15) =~= head);
    }
}

/// Notes that all belong to videos read the same in a course export as in
/// a video export.
pub proof fn lemma_video_notes_export_alike(notes: Seq<Note>)
    requires
        forall|i: int| 0 <= i < notes.len() ==> (#[trigger] notes[i]).video_id is Some,
    ensures
        course_export(notes) == video_export(notes),
    decreases notes.len(),
{
    if notes.len() > 0 {
        let rest = notes.drop_last();
        assert forall|i: int| 0 <= i < rest.len() implies (#[trigger] rest[i]).video_id is Some by {
            assert(rest[i] == notes[i]);
        }
        lemma_video_notes_export_alike(rest);
        assert(notes[notes.len() - 1].video_id is Some);
        lemma_course_export_headings(notes.last());
    }
}

/// Whether every note's creation time can be written by chrono.
pub open spec fn creation_times_representable(notes: Seq<Note>) -> bool {
    forall|i: int|
        0 <= i < notes.len() ==> chrono_accepts_timestamp(
            #[trigger] notes[i].created_at.secs,
            notes[i].created_at.nanos,
        )
}

fn push_timestamp_suffix(out: &mut String, t: Option<u32>)
    ensures
        final(out)@ == old(out)@ + timestamp_suffix(t),
{
    match t {
        Some(v) => {
            push_str_to(out, " at ");
            push_decimal(out, v as u64);
            push_str_to(out, "s");
        },
        None => {
            assert(out@ =~= out@ + timestamp_suffix(t));
        },
    }
}

/// Markdown of the notes of a course: per note a heading naming it a video
/// note (with its timestamp) or a course note, with its creation minute,
/// then its content and a rule.
pub fn export_notes_markdown_by_course(notes: &[Note]) -> (md: String)
    requires
        creation_times_representable(notes@),
    ensures
        md@ == course_export(notes@),
{
    let mut md = String::new();
    let mut i: usize = 0;
    while i < notes.len()
        invariant
            i <= notes@.len(),
            creation_times_representable(notes@),
            md@ == course_export(notes@.subrange(0, i as int)),
        decreases notes.len() - i,
    {
        let note = &notes[i];
        let ghost before = md@;
        push_str_to(&mut md, "### ");
        if note.video_id.is_some() {
            push_str_to(&mut md, "Video Note");
            push_timestamp_suffix(&mut md, note.timestamp);
        } else {
            push_str_to(&mut md, "Course Note");
        }
        push_str_to(&mut md, " (");
        assert(chrono_accepts_timestamp(notes@[i as int].created_at.secs, notes@[i as int].created_at.nanos));
        let date = format_instant(note.created_at, "%Y-%m-%d %H:%M");
        push_str_to(&mut md, date.as_str());
        push_str_to(&mut md, ")\n");
        push_str_to(&mut md, note.content.as_str());
        push_str_to(&mut md, "\n\n---\n\n");
        proof {
            assert(notes@.subrange(0, i + 1).drop_last() =~= notes@.subrange(0, i as int));
            assert(md@ =~= before + course_note_block(*note));
        }
        i = i + 1;
    }
    assert(notes@.subrange(0, notes@.len() as int) =~= notes@);
    md
}

/// Markdown of the notes of a video: per note a "Video Note" heading with
/// its timestamp and creation minute, then its content and a rule.
pub fn export_notes_markdown_by_video(notes: &[Note]) -> (md: String)
    requires
        creation_times_representable(notes@),
    ensures
        md@ == video_export(notes@),
{
    let mut md = String::new();
    let mut i: usize = 0;
    while i < notes.len()
        invariant
            i <= notes@.len(),
            creation_times_representable(notes@),
            md@ == video_export(notes@.subrange(0, i as int)),
        decreases notes.len() - i,
    {
        let note = &notes[i];
        let ghost before = md@;
        push_str_to(&mut md, "### Video Note");
        push_timestamp_suffix(&mut md, note.timestamp);
        push_str_to(&mut md, " (");
        assert(chrono_accepts_timestamp(notes@[i as int].created_at.secs, notes@[i as int].created_at.nanos));
        let date = format_instant(note.created_at, "%Y-%m-%d %H:%M");
        push_str_to(&mut md, date.as_str());
        push_str_to(&mut md, ")\n");
        push_str_to(&mut md, note.content.as_str());
        push_str_to(&mut md, "\n\n---\n\n");
        proof {
            assert(notes@.subrange(0, i + 1).drop_last() =~= notes@.subrange(0, i as int));
            assert(md@ =~= before + video_note_block(*note));
        }
        i = i + 1;
    }
    assert(notes@.subrange(0, notes@.len() as int) =~= notes@);
    md
}

fn optional_instant_ok(d: Option<UtcDateTime>) -> (r: bool)
    ensures
        r == (d matches Some(x) ==> chrono_accepts_timestamp(x.secs, x.nanos)),
{
    match d {
        Some(x) => x.check_representable(),
        None => true,
    }
}

/// The advanced search query where every date filter is an instant chrono
/// represents; `None` where one is not.
pub fn search_notes_advanced_query_checked(filters: &NoteSearchFilters) -> (r: Option<NoteSearchQuery>)
    ensures
        r is Some <==> filter_instants_representable(*filters),
        r matches Some(q) ==> q.sql@ == search_sql(*filters) && q.params@.map_values(
            |x: SqlParam| param_view(x),
        ) == search_params(*filters),
{
    if optional_instant_ok(filters.created_after) && optional_instant_ok(filters.created_before)
        && optional_instant_ok(filters.updated_after) && optional_instant_ok(filters.updated_before) {
        Some(search_notes_advanced_query(filters))
    } else {
        None
    }
}

fn creation_times_ok(notes: &[Note]) -> (r: bool)
    ensures
        r == creation_times_representable(notes@),
{
    let mut i: usize = 0;
    while i < notes.len()
        invariant
            i <= notes@.len(),
            forall|j: int| 0 <= j < i ==> chrono_accepts_timestamp(
                #[trigger] notes@[j].created_at.secs,
                notes@[j].created_at.nanos,
            ),
        decreases notes@.len() - i,
    {
        if !notes[i].created_at.check_representable() {
            return false;
        }
        i = i + 1;
    }
    true
}

/// The Markdown export of a course's notes where every creation time is an
/// instant chrono represents; `None` where one is not.
pub fn export_course_notes_checked(notes: &[Note]) -> (r: Option<String>)
    ensures
        r is Some <==> creation_times_representable(notes@),
        r matches Some(md) ==> md@ == course_export(notes@),
{
    if creation_times_ok(notes) {
        Some(export_notes_markdown_by_course(notes))
    } else {
        None
    }
}

/// The Markdown export of a video's notes where every creation time is an
/// instant chrono represents; `None` where one is not.
pub fn export_video_notes_checked(notes: &[Note]) -> (r: Option<String>)
    ensures
        r is Some <==> creation_times_representable(notes@),
        r matches Some(md) ==> md@ == video_export(notes@),
{
    if creation_times_ok(notes) {
        Some(export_notes_markdown_by_video(notes))
    } else {
        None
    }
}

/// Name for the HTML that `markdown::to_html` produces for a text
/// (CommonMark with the crate's default options).
pub uninterp spec fn markdown_html(s: Seq<char>) -> Seq<char>;

/// `markdown::to_html`. Claimed: the result is the named rendering of the
/// text. With the default options, which enable no MDX constructs, the
/// crate's conversion does not fail, so its `unwrap` does not panic.
#[verifier::external_body]
fn markdown_to_html(s: &str) -> (r: String)
    ensures
        r@ == markdown_html(s@),
{
    markdown::to_html(s)
}

/// The HTML rendering of a note's Markdown content.
pub fn render_note_html(note: &Note) -> (r: String)
    ensures
        r@ == markdown_html(note.content@),
{
    markdown_to_html(note.content.as_str())
}

/// The raw columns of a note row.
#[derive(Clone, Debug, PartialEq)]
pub struct NoteRow {
    pub id: String,
    pub course_id: String,
    pub video_id: Option<String>,
    pub content: String,
    pub timestamp: Option<i64>,
    pub created_at: String,
    pub updated_at: String,
    pub tags: Option<String>,
}

/// Why a note row could not be read: the column holding a malformed UUID
/// or instant.
#[derive(Clone, Copy, Debug, PartialEq, Eq, Structural)]
pub enum NoteRowError {
    InvalidUuid { column: usize },
    InvalidDateTime { column: usize },
}

/// Name for what `serde_json` reads from a text as a list of strings.
pub uninterp spec fn json_string_list(s: Seq<char>) -> Option<Seq<Seq<char>>>;

/// `serde_json::from_str::<Vec<String>>`. Claimed: the result is the named
/// reading of the text.
#[verifier::external_body]
pub(crate) fn parse_string_list(s: &str) -> (r: Option<Vec<String>>)
    ensures
        r matches Some(v) ==> json_string_list(s@) == Some(v@.map_values(|x: String| x@)),
        r is None ==> json_string_list(s@) is None,
{
    serde_json::from_str::<Vec<String>>(s).ok()
}

/// The tags a row's tags column gives: the JSON list, or none where the
/// column is empty or not a list of strings.
pub open spec fn row_tags(tags: Option<String>) -> Seq<Seq<char>> {
    match tags {
        Some(json) => match json_string_list(json@) {
            Some(list) => list,
            None => seq![],
        },
        None => seq![],
    }
}

/// The low 32 bits of a stored timestamp, as an `as u32` cast keeps them.
pub open spec fn low_32_bits(t: i64) -> u32 {
    (t as int % 0x1_0000_0000) as u32
}

fn truncate_to_u32(t: i64) -> (r: u32)
    ensures
        r == low_32_bits(t),
{
    let m = t % 0x1_0000_0000i64;
    if m < 0 {
        (m + 0x1_0000_0000i64) as u32
    } else {
        m as u32
    }
}

/// Name for the JSON text `serde_json` writes for a list of strings.
pub uninterp spec fn string_list_json(v: Seq<Seq<char>>) -> Seq<char>;

/// `serde_json::to_string` of a list of strings. Claimed: the text is the
/// named JSON rendering of the list, and `serde_json::from_str` reads it
/// back as the same list. Writing strings to a string never fails, so the
/// `unwrap` does not panic.
#[verifier::external_body]
pub(crate) fn write_string_list(v: &Vec<String>) -> (r: String)
    ensures
        r@ == string_list_json(v@.map_values(|x: String| x@)),
        json_string_list(r@) == Some(v@.map_values(|x: String| x@)),
{
    serde_json::to_string(v).unwrap()
}

/// Whether note `n` is what a row reads as: every column parsed, the
/// video position unknown (the table does not keep it), the timestamp's
/// low 32 bits, and the tags of the tags column.
pub open spec fn reads_as(row: NoteRow, n: Note) -> bool {
    &&& uuid_parse(row.id@) == Some(n.id.value)
    &&& uuid_parse(row.course_id@) == Some(n.course_id.value)
    &&& match row.video_id {
        Some(v) => n.video_id matches Some(u) && uuid_parse(v@) == Some(u.value),
        None => n.video_id is None,
    }
    &&& n.video_index is None
    &&& n.content == row.content
    &&& n.timestamp == match row.timestamp {
        Some(t) => Some(low_32_bits(t)),
        None => None,
    }
    &&& rfc3339_instant(row.created_at@) == Some((n.created_at.secs, n.created_at.nanos))
    &&& rfc3339_instant(row.updated_at@) == Some((n.updated_at.secs, n.updated_at.nanos))
    &&& n.tags@.map_values(|x: String| x@) == row_tags(row.tags)
}

/// Two notes a row reads as agree in every field (tags by their text).
pub proof fn lemma_reads_as_unique(row: NoteRow, a: Note, b: Note)
    requires
        reads_as(row, a),
        reads_as(row, b),
    ensures
        a.id == b.id,
        a.course_id == b.course_id,
        a.video_id == b.video_id,
        a.video_index == b.video_index,
        a.content == b.content,
        a.timestamp == b.timestamp,
        a.created_at == b.created_at,
        a.updated_at == b.updated_at,
        a.tags@.map_values(|x: String| x@) == b.tags@.map_values(|x: String| x@),
{
}

/// Whether the instants of a note read back from their RFC 3339 text.
pub open spec fn note_times_round_trip(n: Note) -> bool {
    rfc3339_round_trips(n.created_at) && rfc3339_round_trips(n.updated_at)
}

/// The row a note is stored as: ids as hyphenated text, the timestamp
/// widened, instants as RFC 3339 text and the tags as a JSON list; `None`
/// where chrono cannot represent one of the instants. Read back, the row
/// gives the note again, without its video position, for instants of the
/// years 0 to 9999 with nanosecond parts below a second.
pub fn note_row(note: &Note) -> (r: Option<NoteRow>)
    ensures
        r is Some <==> chrono_accepts_timestamp(note.created_at.secs, note.created_at.nanos)
            && chrono_accepts_timestamp(note.updated_at.secs, note.updated_at.nanos),
        r matches Some(row) ==> {
            &&& row.id@ == uuid_text(note.id.value)
            &&& row.course_id@ == uuid_text(note.course_id.value)
            &&& match note.video_id {
                Some(v) => row.video_id matches Some(t) && t@ == uuid_text(v.value),
                None => row.video_id is None,
            }
            &&& row.content == note.content
            &&& row.timestamp == match note.timestamp {
                Some(t) => Some(t as i64),
                None => None,
            }
            &&& row.created_at@ == rfc3339_text(note.created_at.secs, note.created_at.nanos)
            &&& row.updated_at@ == rfc3339_text(note.updated_at.secs, note.updated_at.nanos)
            &&& row.tags matches Some(j) && j@ == string_list_json(note.tags@.map_values(|x: String| x@))
        },
        note_times_round_trip(*note) ==> match r {
            Some(row) => reads_as(row, Note { video_index: None, ..*note }),
            None => true,
        },
{
    if !note.created_at.check_representable() || !note.updated_at.check_representable() {
        return None;
    }
    let video_id = match note.video_id {
        Some(v) => Some(v.to_text()),
        None => None,
    };
    let timestamp = match note.timestamp {
        Some(t) => Some(t as i64),
        None => None,
    };
    let row = NoteRow {
        id: note.id.to_text(),
        course_id: note.course_id.to_text(),
        video_id,
        content: note.content.clone(),
        timestamp,
        created_at: to_rfc3339(note.created_at),
        updated_at: to_rfc3339(note.updated_at),
        tags: Some(write_string_list(&note.tags)),
    };
    proof {
        if let Some(t) = note.timestamp {
            assert(low_32_bits(t as i64) == t);
        }
    }
    Some(row)
}

/// Reads a note from the columns of its row. The first malformed column,
/// in column order, is reported; unreadable tags give no tags.
pub fn note_from_row(row: NoteRow) -> (r: Result<Note, NoteRowError>)
    ensures
        match r {
            Ok(n) => reads_as(row, n),
            Err(e) => {
                if uuid_parse(row.id@) is None {
                    e == NoteRowError::InvalidUuid { column: 0 }
                } else if uuid_parse(row.course_id@) is None {
                    e == NoteRowError::InvalidUuid { column: 1 }
                } else if row.video_id matches Some(v) && uuid_parse(v@) is None {
                    e == NoteRowError::InvalidUuid { column: 2 }
                } else if rfc3339_instant(row.created_at@) is None {
                    e == NoteRowError::InvalidDateTime { column: 5 }
                } else {
                    rfc3339_instant(row.updated_at@) is None && e
                        == NoteRowError::InvalidDateTime { column: 6 }
                }
            },
        },
{
    let id = match Uuid::parse_str(row.id.as_str()) {
        Some(u) => u,
        None => return Err(NoteRowError::InvalidUuid { column: 0 }),
    };
    let course_id = match Uuid::parse_str(row.course_id.as_str()) {
        Some(u) => u,
        None => return Err(NoteRowError::InvalidUuid { column: 1 }),
    };
    let video_id = match &row.video_id {
        Some(s) => match Uuid::parse_str(s.as_str()) {
            Some(u) => Some(u),
            None => return Err(NoteRowError::InvalidUuid { column: 2 }),
        },
        None => None,
    };
    let timestamp = match row.timestamp {
        Some(t) => Some(truncate_to_u32(t)),
        None => None,
    };
    let created_at = match parse_rfc3339(row.created_at.as_str()) {
        Some(d) => d,
        None => return Err(NoteRowError::InvalidDateTime { column: 5 }),
    };
    let updated_at = match parse_rfc3339(row.updated_at.as_str()) {
        Some(d) => d,
        None => return Err(NoteRowError::InvalidDateTime { column: 6 }),
    };
    let tags = match &row.tags {
        Some(json) => match parse_string_list(json.as_str()) {
            Some(v) => v,
            None => {
                let empty: Vec<String> = Vec::new();
                assert(empty@.map_values(|x: String| x@) =~= seq![]);
                empty
            },
        },
        None => {
            let empty: Vec<String> = Vec::new();
            assert(empty@.map_values(|x: String| x@) =~= seq![]);
            empty
        },
    };
    Ok(
        Note {
            id,
            course_id,
            video_id,
            video_index: None,
            content: row.content,
            timestamp,
            tags,
            created_at,
            updated_at,
        },
    )
}

} // verus!
