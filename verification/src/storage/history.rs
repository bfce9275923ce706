//! The call history: the record an added call becomes, and the query a
//! history search runs.

use vstd::prelude::*;
use vstd::string::StringExecFns;
use crate::storage::models::{CreateHistory, Filters, History, RequestItem};
use crate::text::{decimal, decimal_int, digit_char, push_decimal_i64, join_strings, joined, string_views, lowercase, spec_lowercase};

verus! {

/// The record of an added call: the given fields, with its id and
/// creation time.
pub fn new_history_record(h: CreateHistory, id: String, now: i64) -> (r: History)
    ensures
        r.id == id,
        r.project_id == h.project_id,
        r.timestamp == h.timestamp,
        r.service == h.service,
        r.method == h.method,
        r.address == h.address,
        r.status == h.status,
        r.response_code == h.response_code,
        r.response_message == h.response_message,
        r.duration == h.duration,
        r.request_snapshot == h.request_snapshot,
        r.created_at == now,
{
    History {
        id,
        project_id: h.project_id,
        timestamp: h.timestamp,
        service: h.service,
        method: h.method,
        address: h.address,
        status: h.status,
        response_code: h.response_code,
        response_message: h.response_message,
        duration: h.duration,
        request_snapshot: h.request_snapshot,
        created_at: now,
    }
}

/// The page a history listing shows: at most `limit` records (100 when
/// not given) after skipping `offset` (0 when not given).
pub fn history_page(limit: Option<i64>, offset: Option<i64>) -> (r: (i64, i64))
    ensures
        r.0 == (match limit {
            Some(l) => l,
            None => 100,
        }),
        r.1 == (match offset {
            Some(o) => o,
            None => 0,
        }),
{
    let l = match limit {
        Some(l) => l,
        None => 100,
    };
    let o = match offset {
        Some(o) => o,
        None => 0,
    };
    (l, o)
}

/// A query with its bound arguments, in order.
#[derive(Debug)]
pub struct SearchQuery {
    pub sql: String,
    pub args: Vec<String>,
}

/// The columns a history query selects, and the table.
pub open spec fn history_select() -> Seq<char> {
    "SELECT id, project_id, timestamp, service, method, address, status, response_code, response_message, duration, request_snapshot, created_at FROM history"@
}

/// The conditions of a history search, each with its arguments, in the
/// order they are written: the text (matched, lowercased and wrapped in
/// `%`, against the service and the method), then the service, method and
/// status filters, then the time bounds.
pub open spec fn search_conditions(lowered: Option<Seq<char>>, f: Filters) -> Seq<(Seq<char>, Seq<Seq<char>>)> {
    text_condition(lowered) + equal_condition("service = ?"@, f.service) + equal_condition("method = ?"@, f.method)
        + equal_condition("status = ?"@, f.status) + time_condition("timestamp >= ?"@, f.start_time)
        + time_condition("timestamp <= ?"@, f.end_time)
}

/// The condition of a search text, if there is one.
pub open spec fn text_condition(lowered: Option<Seq<char>>) -> Seq<(Seq<char>, Seq<Seq<char>>)> {
    match lowered {
        Some(q) => seq![(
            "(LOWER(service) LIKE ? OR LOWER(method) LIKE ?)"@,
            seq!["%"@ + q + "%"@, "%"@ + q + "%"@],
        )],
        None => Seq::empty(),
    }
}

/// The condition that a column equal a filter's value, if it is set.
pub open spec fn equal_condition(cond: Seq<char>, value: Option<String>) -> Seq<(Seq<char>, Seq<Seq<char>>)> {
    match value {
        Some(v) => seq![(cond, seq![v@])],
        None => Seq::empty(),
    }
}

/// The condition of a time bound, if it is set.
pub open spec fn time_condition(cond: Seq<char>, bound: Option<i64>) -> Seq<(Seq<char>, Seq<Seq<char>>)> {
    match bound {
        Some(t) => seq![(cond, seq![decimal_int(t as int)])],
        None => Seq::empty(),
    }
}

/// The conditions' texts.
pub open spec fn condition_texts(c: Seq<(Seq<char>, Seq<Seq<char>>)>) -> Seq<Seq<char>> {
    c.map_values(|e: (Seq<char>, Seq<Seq<char>>)| e.0)
}

/// The conditions' arguments, in order.
pub open spec fn condition_args(c: Seq<(Seq<char>, Seq<Seq<char>>)>) -> Seq<Seq<char>>
    decreases c.len(),
{
    if c.len() == 0 {
        Seq::empty()
    } else {
        condition_args(c.drop_last()) + c.last().1
    }
}

/// The SQL of a history search with the given conditions and paging.
pub open spec fn search_sql(conditions: Seq<Seq<char>>, limit: Option<i64>, offset: Option<i64>) -> Seq<char> {
    let filtered = if conditions.len() > 0 {
        history_select() + " WHERE "@ + joined(conditions, " AND "@)
    } else {
        history_select()
    };
    let ordered = filtered + " ORDER BY timestamp DESC"@;
    match limit {
        Some(l) => ordered + " LIMIT "@ + decimal_int(l as int) + match offset {
            Some(o) => " OFFSET "@ + decimal_int(o as int),
            None => Seq::<char>::empty(),
        },
        None => ordered,
    }
}

/// The decimal notation of `n` as a fresh string.
fn decimal_text(n: i64) -> (r: String)
    ensures
        r@ == decimal_int(n as int),
{
    let mut r = String::new();
    push_decimal_i64(&mut r, n);
    r
}

/// Appends a condition and its arguments.
fn add_condition(conds: &mut Vec<String>, args: &mut Vec<String>, cond: &str, new_args: Vec<String>, Ghost(c): Ghost<Seq<(Seq<char>, Seq<Seq<char>>)>>)
    requires
        string_views(old(conds)@) == condition_texts(c),
        string_views(old(args)@) == condition_args(c),
    ensures
        string_views(final(conds)@) == condition_texts(c.push((cond@, string_views(new_args@)))),
        string_views(final(args)@) == condition_args(c.push((cond@, string_views(new_args@)))),
{
    let ghost e = (cond@, string_views(new_args@));
    let ghost prev_conds = conds@;
    let text = String::from_str(cond);
    conds.push(text);
    proof {
        assert(conds@ == prev_conds.push(text));
        assert(string_views(conds@) =~= string_views(prev_conds).push(cond@));
        assert(condition_texts(c.push(e)) =~= condition_texts(c).push(cond@));
    }
    let ghost before = args@;
    let mut i: usize = 0;
    while i < new_args.len()
        invariant
            i <= new_args@.len(),
            string_views(args@) == string_views(before) + string_views(new_args@).subrange(0, i as int),
        decreases new_args@.len() - i,
    {
        let ghost prev = args@;
        let a = new_args[i].clone();
        args.push(a);
        proof {
            assert(args@ == prev.push(a));
            assert(string_views(args@) =~= string_views(prev).push(new_args@[i as int]@));
            assert(string_views(new_args@).subrange(0, i + 1) =~= string_views(new_args@).subrange(0, i as int).push(new_args@[i as int]@));
            assert(string_views(args@) =~= string_views(before) + string_views(new_args@).subrange(0, i + 1));
        }
        i = i + 1;
    }
    assert(c.push(e).drop_last() =~= c);
    assert(string_views(new_args@).subrange(0, new_args@.len() as int) =~= string_views(new_args@));
}

/// The conditions, arguments and SQL of a history search, assembled.
fn build_search_query(lowered: Option<&str>, filters: &Filters) -> (r: SearchQuery)
    ensures
        r.sql@ == search_sql(
            condition_texts(search_conditions(
                match lowered { Some(q) => Some(q@), None => None },
                *filters,
            )),
            filters.limit,
            filters.offset,
        ),
        string_views(r.args@) == condition_args(
            search_conditions(match lowered { Some(q) => Some(q@), None => None }, *filters),
        ),
{
    let ghost lq = match lowered { Some(q) => Some(q@), None => None::<Seq<char>> };
    let mut conds: Vec<String> = Vec::new();
    let mut args: Vec<String> = Vec::new();
    let ghost mut c: Seq<(Seq<char>, Seq<Seq<char>>)> = Seq::empty();
    proof {
        assert(string_views(conds@) =~= condition_texts(c));
        assert(string_views(args@) =~= condition_args(c));
    }
    if let Some(q) = lowered {
        let pattern = String::from_str("%").concat(q).concat("%");
        let mut two: Vec<String> = Vec::new();
        two.push(pattern.clone());
        two.push(pattern);
        add_condition(&mut conds, &mut args, "(LOWER(service) LIKE ? OR LOWER(method) LIKE ?)", two, Ghost(c));
        proof {
            c = c.push(("(LOWER(service) LIKE ? OR LOWER(method) LIKE ?)"@, string_views(two@)));
            assert(string_views(two@) =~= seq!["%"@ + q@ + "%"@, "%"@ + q@ + "%"@]);
        }
    }
    assert(c =~= text_condition(lq));
    if let Some(s) = &filters.service {
        let mut one: Vec<String> = Vec::new();
        one.push(s.clone());
        add_condition(&mut conds, &mut args, "service = ?", one, Ghost(c));
        proof {
            c = c.push(("service = ?"@, string_views(one@)));
            assert(string_views(one@) =~= seq![s@]);
        }
    }
    assert(c =~= text_condition(lq) + equal_condition("service = ?"@, filters.service));
    if let Some(m) = &filters.method {
        let mut one: Vec<String> = Vec::new();
        one.push(m.clone());
        add_condition(&mut conds, &mut args, "method = ?", one, Ghost(c));
        proof {
            c = c.push(("method = ?"@, string_views(one@)));
            assert(string_views(one@) =~= seq![m@]);
        }
    }
    assert(c =~= text_condition(lq) + equal_condition("service = ?"@, filters.service) + equal_condition("method = ?"@, filters.method));
    if let Some(s) = &filters.status {
        let mut one: Vec<String> = Vec::new();
        one.push(s.clone());
        add_condition(&mut conds, &mut args, "status = ?", one, Ghost(c));
        proof {
            c = c.push(("status = ?"@, string_views(one@)));
            assert(string_views(one@) =~= seq![s@]);
        }
    }
    assert(c =~= text_condition(lq) + equal_condition("service = ?"@, filters.service) + equal_condition("method = ?"@, filters.method) + equal_condition("status = ?"@, filters.status));
    if let Some(t) = filters.start_time {
        let mut one: Vec<String> = Vec::new();
        one.push(decimal_text(t));
        add_condition(&mut conds, &mut args, "timestamp >= ?", one, Ghost(c));
        proof {
            c = c.push(("timestamp >= ?"@, string_views(one@)));
            assert(string_views(one@) =~= seq![decimal_int(t as int)]);
        }
    }
    assert(c =~= text_condition(lq) + equal_condition("service = ?"@, filters.service) + equal_condition("method = ?"@, filters.method) + equal_condition("status = ?"@, filters.status) + time_condition("timestamp >= ?"@, filters.start_time));
    if let Some(t) = filters.end_time {
        let mut one: Vec<String> = Vec::new();
        one.push(decimal_text(t));
        add_condition(&mut conds, &mut args, "timestamp <= ?", one, Ghost(c));
        proof {
            c = c.push(("timestamp <= ?"@, string_views(one@)));
            assert(string_views(one@) =~= seq![decimal_int(t as int)]);
        }
    }
    assert(c =~= text_condition(lq) + equal_condition("service = ?"@, filters.service) + equal_condition("method = ?"@, filters.method) + equal_condition("status = ?"@, filters.status) + time_condition("timestamp >= ?"@, filters.start_time) + time_condition("timestamp <= ?"@, filters.end_time));
    proof {
        assert(c =~= search_conditions(lq, *filters));
    }
    let mut sql = String::from_str("SELECT id, project_id, timestamp, service, method, address, status, response_code, response_message, duration, request_snapshot, created_at FROM history");
    if conds.len() > 0 {
        sql.append(" WHERE ");
        let j = join_strings(&conds, " AND ");
        sql.append(j.as_str());
    }
    sql.append(" ORDER BY timestamp DESC");
    if let Some(l) = filters.limit {
        sql.append(" LIMIT ");
        let lt = decimal_text(l);
        sql.append(lt.as_str());
        if let Some(o) = filters.offset {
            sql.append(" OFFSET ");
            let ot = decimal_text(o);
            sql.append(ot.as_str());
        }
    }
    SearchQuery { sql, args }
}

/// The query of a history search, given the search text already
/// lowercased (`None` when the text is empty): its conditions joined by
/// "AND", newest first, paged when a limit is given (the offset counting
/// only with a limit), and the arguments in the order of the conditions,
/// one for each `?` of the SQL.
pub fn search_query_with(lowered: Option<&str>, filters: &Filters) -> (r: SearchQuery)
    ensures
        r.sql@ == search_sql(
            condition_texts(search_conditions(
                match lowered { Some(q) => Some(q@), None => None },
                *filters,
            )),
            filters.limit,
            filters.offset,
        ),
        string_views(r.args@) == condition_args(
            search_conditions(match lowered { Some(q) => Some(q@), None => None }, *filters),
        ),
        placeholder_count(r.sql@) == r.args@.len(),
{
    let r = build_search_query(lowered, filters);
    proof {
        lemma_search_placeholders(match lowered { Some(q) => Some(q@), None => None }, *filters);
        assert(string_views(r.args@).len() == r.args@.len());
    }
    r
}

/// The query of a history search for `query` (matched case-insensitively
/// against service and method when not empty) under `filters`, with one
/// argument for each `?` of its SQL.
pub fn search_query(query: &str, filters: &Filters) -> (r: SearchQuery)
    ensures
        ({
            let lowered = if query@.len() == 0 { None } else { Some(spec_lowercase(query@)) };
            &&& r.sql@ == search_sql(condition_texts(search_conditions(lowered, *filters)), filters.limit, filters.offset)
            &&& string_views(r.args@) == condition_args(search_conditions(lowered, *filters))
        }),
        placeholder_count(r.sql@) == r.args@.len(),
{
    if query.unicode_len() == 0 {
        search_query_with(None, filters)
    } else {
        let l = lowercase(query);
        search_query_with(Some(l.as_str()), filters)
    }
}

/// The number of `?` placeholders in `s`.
pub open spec fn placeholder_count(s: Seq<char>) -> nat
    decreases s.len(),
{
    if s.len() == 0 {
        0
    } else {
        placeholder_count(s.drop_last()) + if s.last() == '?' { 1nat } else { 0nat }
    }
}

/// The placeholders of a list of texts, all together.
pub open spec fn total_placeholders(parts: Seq<Seq<char>>) -> nat
    decreases parts.len(),
{
    if parts.len() == 0 {
        0
    } else {
        total_placeholders(parts.drop_last()) + placeholder_count(parts.last())
    }
}

/// Whether every condition has one argument per placeholder of its text.
pub open spec fn conditions_balanced(c: Seq<(Seq<char>, Seq<Seq<char>>)>) -> bool {
    forall|i: int| 0 <= i < c.len() ==> placeholder_count(#[trigger] c[i].0) == c[i].1.len()
}

proof fn lemma_count_concat(a: Seq<char>, b: Seq<char>)
    ensures
        placeholder_count(a + b) == placeholder_count(a) + placeholder_count(b),
    decreases b.len(),
{
    if b.len() == 0 {
        assert(a + b =~= a);
    } else {
        assert((a + b).drop_last() =~= a + b.drop_last());
        assert((a + b).last() == b.last());
        lemma_count_concat(a, b.drop_last());
    }
}

proof fn lemma_count_none(s: Seq<char>)
    requires
        forall|i: int| 0 <= i < s.len() ==> s[i] != '?',
    ensures
        placeholder_count(s) == 0,
    decreases s.len(),
{
    if s.len() > 0 {
        lemma_count_none(s.drop_last());
    }
}

/// A text whose only `?` is at `p` has one placeholder.
proof fn lemma_count_one(s: Seq<char>, p: int)
    requires
        0 <= p < s.len(),
        s[p] == '?',
        forall|i: int| 0 <= i < s.len() && i != p ==> s[i] != '?',
    ensures
        placeholder_count(s) == 1,
{
    let a = s.subrange(0, p);
    let b = s.subrange(p, p + 1);
    let c = s.subrange(p + 1, s.len() as int);
    assert(s =~= a + b + c);
    lemma_count_none(a);
    lemma_count_none(c);
    assert(b.drop_last().len() == 0);
    assert(placeholder_count(b.drop_last()) == 0);
    assert(b.last() == '?');
    assert(placeholder_count(b) == 1);
    lemma_count_concat(a, b);
    lemma_count_concat(a + b, c);
}

proof fn lemma_decimal_no_placeholder(n: nat)
    ensures
        placeholder_count(decimal(n)) == 0,
    decreases n,
{
    if n < 10 {
        assert(decimal(n).drop_last().len() == 0);
        assert(placeholder_count(decimal(n).drop_last()) == 0);
        assert(digit_char(n) != '?');
    } else {
        lemma_decimal_no_placeholder(n / 10);
        assert(decimal(n).drop_last() =~= decimal(n / 10));
        assert(digit_char(n % 10) != '?');
    }
}

proof fn lemma_decimal_int_no_placeholder(n: int)
    ensures
        placeholder_count(decimal_int(n)) == 0,
{
    if n < 0 {
        lemma_decimal_no_placeholder((-n) as nat);
        lemma_count_none(seq!['-']);
        lemma_count_concat(seq!['-'], decimal((-n) as nat));
    } else {
        lemma_decimal_no_placeholder(n as nat);
    }
}

proof fn lemma_joined_placeholders(parts: Seq<Seq<char>>, sep: Seq<char>)
    requires
        placeholder_count(sep) == 0,
    ensures
        placeholder_count(joined(parts, sep)) == total_placeholders(parts),
    decreases parts.len(),
{
    if parts.len() == 0 {
        assert(joined(parts, sep).len() == 0);
    } else if parts.len() == 1 {
        assert(parts.drop_last().len() == 0);
        assert(total_placeholders(parts.drop_last()) == 0);
        assert(parts.last() == parts[0]);
    } else {
        lemma_joined_placeholders(parts.drop_last(), sep);
        lemma_count_concat(joined(parts.drop_last(), sep), sep);
        lemma_count_concat(joined(parts.drop_last(), sep) + sep, parts.last());
    }
}

proof fn lemma_balanced_totals(c: Seq<(Seq<char>, Seq<Seq<char>>)>)
    requires
        conditions_balanced(c),
    ensures
        total_placeholders(condition_texts(c)) == condition_args(c).len(),
    decreases c.len(),
{
    if c.len() > 0 {
        let d = c.drop_last();
        assert(condition_texts(c).drop_last() =~= condition_texts(d));
        assert(condition_texts(c).last() == c.last().0);
        assert(placeholder_count(c[c.len() - 1].0) == c[c.len() - 1].1.len());
        assert forall|i: int| 0 <= i < d.len() implies placeholder_count(#[trigger] d[i].0) == d[i].1.len() by {
            assert(d[i] == c[i]);
        }
        lemma_balanced_totals(d);
    }
}

proof fn lemma_balanced_concat(a: Seq<(Seq<char>, Seq<Seq<char>>)>, b: Seq<(Seq<char>, Seq<Seq<char>>)>)
    requires
        conditions_balanced(a),
        conditions_balanced(b),
    ensures
        conditions_balanced(a + b),
{
    assert forall|i: int| 0 <= i < (a + b).len() implies placeholder_count(#[trigger] (a + b)[i].0) == (a
        + b)[i].1.len() by {
        if i < a.len() {
            assert((a + b)[i] == a[i]);
        } else {
            assert((a + b)[i] == b[i - a.len()]);
        }
    }
}

proof fn lemma_one_placeholder_condition(cond: Seq<char>, p: int, args: Seq<Seq<char>>)
    requires
        0 <= p < cond.len(),
        cond[p] == '?',
        forall|i: int| 0 <= i < cond.len() && i != p ==> cond[i] != '?',
        args.len() == 1,
    ensures
        conditions_balanced(seq![(cond, args)]),
{
    lemma_count_one(cond, p);
    assert(seq![(cond, args)][0] == (cond, args));
}

proof fn lemma_conditions_balanced(lowered: Option<Seq<char>>, f: Filters)
    ensures
        conditions_balanced(search_conditions(lowered, f)),
{
    let like = "(LOWER(service) LIKE ? OR LOWER(method) LIKE ?)"@;
    reveal_strlit("(LOWER(service) LIKE ? OR LOWER(method) LIKE ?)");
    reveal_strlit("service = ?");
    reveal_strlit("method = ?");
    reveal_strlit("status = ?");
    reveal_strlit("timestamp >= ?");
    reveal_strlit("timestamp <= ?");
    let tc = text_condition(lowered);
    if let Some(q) = lowered {
        let left = like.subrange(0, 30);
        let right = like.subrange(30, like.len() as int);
        assert(like =~= left + right);
        lemma_count_one(left, 21);
        lemma_count_one(right, 15);
        lemma_count_concat(left, right);
        assert(tc[0] == (like, seq!["%"@ + q + "%"@, "%"@ + q + "%"@]));
    }
    assert(conditions_balanced(tc));
    let ec_s = equal_condition("service = ?"@, f.service);
    let ec_m = equal_condition("method = ?"@, f.method);
    let ec_t = equal_condition("status = ?"@, f.status);
    let tm_s = time_condition("timestamp >= ?"@, f.start_time);
    let tm_e = time_condition("timestamp <= ?"@, f.end_time);
    if let Some(v) = f.service {
        lemma_one_placeholder_condition("service = ?"@, 10, seq![v@]);
    }
    if let Some(v) = f.method {
        lemma_one_placeholder_condition("method = ?"@, 9, seq![v@]);
    }
    if let Some(v) = f.status {
        lemma_one_placeholder_condition("status = ?"@, 9, seq![v@]);
    }
    if let Some(t) = f.start_time {
        lemma_one_placeholder_condition("timestamp >= ?"@, 13, seq![decimal_int(t as int)]);
    }
    if let Some(t) = f.end_time {
        lemma_one_placeholder_condition("timestamp <= ?"@, 13, seq![decimal_int(t as int)]);
    }
    assert(conditions_balanced(ec_s));
    assert(conditions_balanced(ec_m));
    assert(conditions_balanced(ec_t));
    assert(conditions_balanced(tm_s));
    assert(conditions_balanced(tm_e));
    lemma_balanced_concat(tc, ec_s);
    lemma_balanced_concat(tc + ec_s, ec_m);
    lemma_balanced_concat(tc + ec_s + ec_m, ec_t);
    lemma_balanced_concat(tc + ec_s + ec_m + ec_t, tm_s);
    lemma_balanced_concat(tc + ec_s + ec_m + ec_t + tm_s, tm_e);
}

/// A history search query binds one argument per `?` placeholder of its
/// SQL, whatever the search text and filters.
pub proof fn lemma_search_placeholders(lowered: Option<Seq<char>>, f: Filters)
    ensures
        placeholder_count(search_sql(condition_texts(search_conditions(lowered, f)), f.limit, f.offset))
            == condition_args(search_conditions(lowered, f)).len(),
{
    let c = search_conditions(lowered, f);
    let texts = condition_texts(c);
    lemma_conditions_balanced(lowered, f);
    lemma_balanced_totals(c);
    reveal_strlit("SELECT id, project_id, timestamp, service, method, address, status, response_code, response_message, duration, request_snapshot, created_at FROM history");
    reveal_strlit(" WHERE ");
    reveal_strlit(" AND ");
    reveal_strlit(" ORDER BY timestamp DESC");
    reveal_strlit(" LIMIT ");
    reveal_strlit(" OFFSET ");
    lemma_count_none(history_select());
    lemma_count_none(" WHERE "@);
    lemma_count_none(" AND "@);
    lemma_count_none(" ORDER BY timestamp DESC"@);
    lemma_count_none(" LIMIT "@);
    lemma_count_none(" OFFSET "@);
    let filtered = if texts.len() > 0 {
        lemma_joined_placeholders(texts, " AND "@);
        lemma_count_concat(history_select(), " WHERE "@);
        lemma_count_concat(history_select() + " WHERE "@, joined(texts, " AND "@));
        history_select() + " WHERE "@ + joined(texts, " AND "@)
    } else {
        assert(c.len() == 0);
        assert(condition_args(c).len() == 0);
        history_select()
    };
    assert(placeholder_count(filtered) == condition_args(c).len());
    let ordered = filtered + " ORDER BY timestamp DESC"@;
    lemma_count_concat(filtered, " ORDER BY timestamp DESC"@);
    if let Some(l) = f.limit {
        lemma_decimal_int_no_placeholder(l as int);
        lemma_count_concat(ordered, " LIMIT "@);
        lemma_count_concat(ordered + " LIMIT "@, decimal_int(l as int));
        let tail = match f.offset {
            Some(o) => " OFFSET "@ + decimal_int(o as int),
            None => Seq::<char>::empty(),
        };
        if let Some(o) = f.offset {
            lemma_decimal_int_no_placeholder(o as int);
            lemma_count_concat(" OFFSET "@, decimal_int(o as int));
        } else {
            lemma_count_none(tail);
        }
        lemma_count_concat(ordered + " LIMIT "@ + decimal_int(l as int), tail);
    }
}

} // verus!
