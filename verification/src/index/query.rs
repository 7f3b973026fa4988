//! Rows that the index queries hand to the screens and commands.

use vstd::prelude::*;
use crate::text::seq_le;

verus! {

/// A thread in a list: id, subject, state, message count and the time of
/// its latest message.
#[derive(Debug, Clone, PartialEq, Eq)]
pub struct ThreadListRow {
    pub id: i64,
    pub subject: Option<String>,
    pub state: Option<String>,
    pub message_count: i64,
    pub latest_message_at: Option<String>,
}

/// One message of a thread as the thread view shows it.
#[derive(Debug, Clone, PartialEq, Eq)]
pub struct ThreadMessageRow {
    pub message_id: i64,
    pub subject: Option<String>,
    pub from_email: Option<String>,
    pub body_text: String,
    pub sent_at: Option<String>,
}

/// A thread with its messages, oldest first.
#[derive(Debug, Clone, PartialEq, Eq)]
pub struct ThreadDetailRow {
    pub thread_id: i64,
    pub state: Option<String>,
    pub subject: Option<String>,
    pub messages: Vec<ThreadMessageRow>,
}

/// A draft as the review list shows it.
#[derive(Debug, Clone, PartialEq, Eq)]
pub struct DraftReviewRow {
    pub id: i64,
    pub thread_id: Option<i64>,
    pub status: String,
    pub source: String,
    pub provider: Option<String>,
    pub model: Option<String>,
    pub has_rationale: bool,
    pub approval_status: String,
    pub created_at: String,
    pub updated_at: String,
    pub approved_at: Option<String>,
    pub sent_at: Option<String>,
    pub latest_audit_at: Option<String>,
    pub latest_approval_audit_at: Option<String>,
    pub latest_send_audit_at: Option<String>,
}

/// Restrictions on a lexical search.
#[derive(Debug, Clone, PartialEq, Eq)]
pub struct LexicalSearchFilters {
    pub account_id: Option<i64>,
    pub mailbox_id: Option<i64>,
    pub sent_after: Option<String>,
    pub sent_before: Option<String>,
}

impl LexicalSearchFilters {
    /// No restriction.
    pub fn none() -> (r: Self)
        ensures
            r.account_id is None,
            r.mailbox_id is None,
            r.sent_after is None,
            r.sent_before is None,
    {
        LexicalSearchFilters { account_id: None, mailbox_id: None, sent_after: None, sent_before: None }
    }
}

pub open spec fn row_ids(rows: Seq<ThreadListRow>) -> Seq<i64> {
    rows.map_values(|r: ThreadListRow| r.id)
}

/// A value bound to a `?` of a query.
#[derive(Debug, Clone, PartialEq, Eq)]
pub enum SqlParam {
    Text(String),
    Int(i64),
}

pub open spec fn param_view(p: SqlParam) -> (bool, Seq<char>, int) {
    match p {
        SqlParam::Text(t) => (true, t@, 0),
        SqlParam::Int(n) => (false, Seq::empty(), n as int),
    }
}

/// The matching messages with their thread, subject, snippet, rank and date.
pub open spec fn lexical_base_sql() -> Seq<char> {
    "SELECT tm.thread_id,
                m.id,
                m.subject,
                snippet(message_fts, 1, '[', ']', '…', 12) AS evidence_snippet,
                bm25(message_fts, 5.0, 1.0, 2.0) AS lexical_score,
                m.sent_at
         FROM message_fts
         JOIN messages m ON m.id = message_fts.rowid
         JOIN thread_messages tm ON tm.message_id = m.id
         WHERE message_fts MATCH ?"@
}

/// Best rank first, then the newest, then the highest message id.
pub open spec fn lexical_order_sql() -> Seq<char> {
    " ORDER BY lexical_score ASC, COALESCE(m.sent_at, '') DESC, m.id DESC
          LIMIT ?"@
}

pub open spec fn clause_if(present: bool, clause: Seq<char>) -> Seq<char> {
    if present {
        clause
    } else {
        Seq::empty()
    }
}

/// The full-text query: the base, a condition for each filter given, then
/// the order and the limit.
pub open spec fn lexical_sql_spec(f: LexicalSearchFilters) -> Seq<char> {
    lexical_base_sql()
        + clause_if(f.account_id is Some, " AND m.account_id = ?"@)
        + clause_if(f.mailbox_id is Some, " AND m.mailbox_id = ?"@)
        + clause_if(f.sent_after is Some, " AND m.sent_at >= ?"@)
        + clause_if(f.sent_before is Some, " AND m.sent_at <= ?"@)
        + lexical_order_sql()
}

/// The values for its `?`s, in order: the query, each filter given, the
/// limit.
pub open spec fn lexical_params_spec(query: Seq<char>, f: LexicalSearchFilters, limit: int) -> Seq<(bool, Seq<char>, int)> {
    seq![(true, query, 0int)]
        + (match f.account_id {
            Some(a) => seq![(false, Seq::<char>::empty(), a as int)],
            None => Seq::empty(),
        })
        + (match f.mailbox_id {
            Some(m) => seq![(false, Seq::<char>::empty(), m as int)],
            None => Seq::empty(),
        })
        + (match f.sent_after {
            Some(t) => seq![(true, t@, 0int)],
            None => Seq::empty(),
        })
        + (match f.sent_before {
            Some(t) => seq![(true, t@, 0int)],
            None => Seq::empty(),
        })
        + seq![(false, Seq::<char>::empty(), limit)]
}

fn push_param(out: &mut Vec<SqlParam>, p: SqlParam)
    ensures
        final(out)@.map_values(|q: SqlParam| param_view(q)) == old(out)@.map_values(
            |q: SqlParam| param_view(q),
        ).push(param_view(p)),
{
    out.push(p);
    assert(out@.map_values(|q: SqlParam| param_view(q)) =~= old(out)@.map_values(
        |q: SqlParam| param_view(q),
    ).push(param_view(p)));
}

/// The text of the full-text query for these filters, and the values bound
/// to it.
pub fn lexical_search_query(query: &str, filters: &LexicalSearchFilters, limit: i64) -> (r: (String, Vec<SqlParam>))
    ensures
        r.0@ == lexical_sql_spec(*filters),
        r.1@.map_values(|q: SqlParam| param_view(q)) == lexical_params_spec(query@, *filters, limit as int),
{
    let mut sql = "SELECT tm.thread_id,
                m.id,
                m.subject,
                snippet(message_fts, 1, '[', ']', '…', 12) AS evidence_snippet,
                bm25(message_fts, 5.0, 1.0, 2.0) AS lexical_score,
                m.sent_at
         FROM message_fts
         JOIN messages m ON m.id = message_fts.rowid
         JOIN thread_messages tm ON tm.message_id = m.id
         WHERE message_fts MATCH ?".to_string();
    let mut params: Vec<SqlParam> = Vec::new();
    push_param(&mut params, SqlParam::Text(query.to_string()));
    let ghost p0 = params@.map_values(|q: SqlParam| param_view(q));
    let ghost s0 = sql@;
    match filters.account_id {
        Some(a) => {
            crate::text::push_str(&mut sql, " AND m.account_id = ?");
            push_param(&mut params, SqlParam::Int(a));
        },
        None => {},
    }
    let ghost p1 = params@.map_values(|q: SqlParam| param_view(q));
    let ghost s1 = sql@;
    match filters.mailbox_id {
        Some(m) => {
            crate::text::push_str(&mut sql, " AND m.mailbox_id = ?");
            push_param(&mut params, SqlParam::Int(m));
        },
        None => {},
    }
    let ghost p2 = params@.map_values(|q: SqlParam| param_view(q));
    let ghost s2 = sql@;
    match &filters.sent_after {
        Some(t) => {
            crate::text::push_str(&mut sql, " AND m.sent_at >= ?");
            push_param(&mut params, SqlParam::Text(t.clone()));
        },
        None => {},
    }
    let ghost p3 = params@.map_values(|q: SqlParam| param_view(q));
    let ghost s3 = sql@;
    match &filters.sent_before {
        Some(t) => {
            crate::text::push_str(&mut sql, " AND m.sent_at <= ?");
            push_param(&mut params, SqlParam::Text(t.clone()));
        },
        None => {},
    }
    let ghost p4 = params@.map_values(|q: SqlParam| param_view(q));
    let ghost s4 = sql@;
    crate::text::push_str(&mut sql, " ORDER BY lexical_score ASC, COALESCE(m.sent_at, '') DESC, m.id DESC
          LIMIT ?");
    push_param(&mut params, SqlParam::Int(limit));
    proof {
        let f = *filters;
        assert(s1 == s0 + clause_if(f.account_id is Some, " AND m.account_id = ?"@));
        assert(s2 == s1 + clause_if(f.mailbox_id is Some, " AND m.mailbox_id = ?"@));
        assert(s3 == s2 + clause_if(f.sent_after is Some, " AND m.sent_at >= ?"@));
        assert(s4 == s3 + clause_if(f.sent_before is Some, " AND m.sent_at <= ?"@));
        assert(sql@ =~= lexical_sql_spec(f));
        assert(params@.map_values(|q: SqlParam| param_view(q)) =~= lexical_params_spec(query@, f, limit as int));
    }
    (sql, params)
}

/// A condition on a column of `messages`: the column, the comparison, and
/// the value bound to its `?`.
pub type Condition = (Seq<char>, Seq<char>, (bool, Seq<char>, int));

/// How a condition is written: ` AND m.<column> <comparison> ?`.
pub open spec fn render_condition(c: Condition) -> Seq<char> {
    " AND m."@ + c.0 + " "@ + c.1 + " ?"@
}

pub open spec fn render_conditions(cs: Seq<Condition>) -> Seq<char>
    decreases cs.len(),
{
    if cs.len() == 0 {
        Seq::empty()
    } else {
        render_conditions(cs.drop_last()) + render_condition(cs.last())
    }
}

pub open spec fn condition_values(cs: Seq<Condition>) -> Seq<(bool, Seq<char>, int)> {
    cs.map_values(|c: Condition| c.2)
}

/// A message as the conditions see it: its account, its mailbox and the
/// time it was sent (SQL `NULL` when unknown).
pub type MessageCols = (int, int, Option<Seq<char>>);

/// What a condition means for a message: `=` on an id column is equality;
/// `>=` and `<=` on `sent_at` compare the text, and fail on `NULL`.
pub open spec fn condition_holds(c: Condition, row: MessageCols) -> bool {
    if c.0 == "account_id"@ {
        c.1 == "="@ && row.0 == c.2.2
    } else if c.0 == "mailbox_id"@ {
        c.1 == "="@ && row.1 == c.2.2
    } else if c.0 == "sent_at"@ {
        match row.2 {
            Some(t) => (c.1 == ">="@ && seq_le(c.2.1, t)) || (c.1 == "<="@ && seq_le(t, c.2.1)),
            None => false,
        }
    } else {
        false
    }
}

pub open spec fn conditions_hold(cs: Seq<Condition>, row: MessageCols) -> bool {
    forall|i: int| 0 <= i < cs.len() ==> condition_holds(#[trigger] cs[i], row)
}

/// What the filters ask of a message: the given account and mailbox, sent
/// no earlier than `sent_after` and no later than `sent_before`.
pub open spec fn filters_admit(f: LexicalSearchFilters, row: MessageCols) -> bool {
    &&& (match f.account_id { Some(a) => row.0 == a, None => true })
    &&& (match f.mailbox_id { Some(m) => row.1 == m, None => true })
    &&& (match f.sent_after { Some(t) => (row.2 matches Some(s) && seq_le(t@, s)), None => true })
    &&& (match f.sent_before { Some(t) => (row.2 matches Some(s) && seq_le(s, t@)), None => true })
}

pub open spec fn push_if(cs: Seq<Condition>, present: bool, c: Condition) -> Seq<Condition> {
    if present {
        cs.push(c)
    } else {
        cs
    }
}

/// One condition for each filter given, in the order of the filters.
pub open spec fn filter_conditions(f: LexicalSearchFilters) -> Seq<Condition> {
    let c1 = push_if(Seq::empty(), f.account_id is Some, ("account_id"@, "="@, (false, Seq::<char>::empty(), f.account_id->0 as int)));
    let c2 = push_if(c1, f.mailbox_id is Some, ("mailbox_id"@, "="@, (false, Seq::<char>::empty(), f.mailbox_id->0 as int)));
    let c3 = push_if(c2, f.sent_after is Some, ("sent_at"@, ">="@, (true, f.sent_after->0@, 0int)));
    push_if(c3, f.sent_before is Some, ("sent_at"@, "<="@, (true, f.sent_before->0@, 0int)))
}

proof fn lemma_push_if(cs: Seq<Condition>, present: bool, c: Condition)
    ensures
        render_conditions(push_if(cs, present, c)) == render_conditions(cs) + clause_if(present, render_condition(c)),
        condition_values(push_if(cs, present, c)) == condition_values(cs) + (if present { seq![c.2] } else { Seq::empty() }),
        forall|row: MessageCols| conditions_hold(push_if(cs, present, c), row) <==> (conditions_hold(cs, row) && (present ==> condition_holds(c, row))),
{
    if present {
        assert(cs.push(c).drop_last() =~= cs);
        assert(condition_values(cs.push(c)) =~= condition_values(cs) + seq![c.2]);
        assert forall|row: MessageCols| conditions_hold(push_if(cs, present, c), row) <==> (conditions_hold(cs, row) && condition_holds(c, row)) by {
            let p = cs.push(c);
            if conditions_hold(p, row) {
                assert(p[cs.len() as int] == c);
                assert forall|i: int| 0 <= i < cs.len() implies condition_holds(#[trigger] cs[i], row) by {
                    assert(p[i] == cs[i]);
                }
            }
            if conditions_hold(cs, row) && condition_holds(c, row) {
                assert forall|i: int| 0 <= i < p.len() implies condition_holds(#[trigger] p[i], row) by {
                    if i < cs.len() {
                        assert(p[i] == cs[i]);
                    }
                }
            }
        }
    } else {
        assert(condition_values(cs) + Seq::<(bool, Seq<char>, int)>::empty() =~= condition_values(cs));
        assert(render_conditions(cs) + Seq::<char>::empty() =~= render_conditions(cs));
    }
}

/// The full-text query restricts the messages exactly as the filters ask:
/// its text is the base query, one condition for each filter given, then
/// the order and limit; the values bound are the query, the values of those
/// conditions in turn, and the limit; and a message meets the conditions
/// exactly when it is in the given account and mailbox and was sent no
/// earlier than `sent_after` and no later than `sent_before`.
pub proof fn law_lexical_filters_bound_the_rows(query: Seq<char>, f: LexicalSearchFilters, limit: int, row: MessageCols)
    ensures
        lexical_sql_spec(f) == lexical_base_sql() + render_conditions(filter_conditions(f)) + lexical_order_sql(),
        lexical_params_spec(query, f, limit) == seq![(true, query, 0int)] + condition_values(filter_conditions(f)) + seq![(false, Seq::<char>::empty(), limit)],
        conditions_hold(filter_conditions(f), row) <==> filters_admit(f, row),
{
    reveal_strlit(" AND m.");
    reveal_strlit(" ");
    reveal_strlit(" ?");
    reveal_strlit("account_id");
    reveal_strlit("mailbox_id");
    reveal_strlit("sent_at");
    reveal_strlit("=");
    reveal_strlit(">=");
    reveal_strlit("<=");
    reveal_strlit(" AND m.account_id = ?");
    reveal_strlit(" AND m.mailbox_id = ?");
    reveal_strlit(" AND m.sent_at >= ?");
    reveal_strlit(" AND m.sent_at <= ?");
    let ca: Condition = ("account_id"@, "="@, (false, Seq::<char>::empty(), f.account_id->0 as int));
    let cm: Condition = ("mailbox_id"@, "="@, (false, Seq::<char>::empty(), f.mailbox_id->0 as int));
    let cs: Condition = ("sent_at"@, ">="@, (true, f.sent_after->0@, 0int));
    let cb: Condition = ("sent_at"@, "<="@, (true, f.sent_before->0@, 0int));
    assert(render_condition(ca) =~= " AND m.account_id = ?"@);
    assert(render_condition(cm) =~= " AND m.mailbox_id = ?"@);
    assert(render_condition(cs) =~= " AND m.sent_at >= ?"@);
    assert(render_condition(cb) =~= " AND m.sent_at <= ?"@);
    assert("account_id"@ != "mailbox_id"@ && "account_id"@ != "sent_at"@ && "mailbox_id"@ != "sent_at"@) by {
        assert("account_id"@[0] != "mailbox_id"@[0]);
        assert("account_id"@[0] != "sent_at"@[0]);
        assert("mailbox_id"@[0] != "sent_at"@[0]);
    }
    assert(">="@ != "<="@) by {
        assert(">="@[0] != "<="@[0]);
    }
    let e: Seq<Condition> = Seq::empty();
    let c1 = push_if(e, f.account_id is Some, ca);
    let c2 = push_if(c1, f.mailbox_id is Some, cm);
    let c3 = push_if(c2, f.sent_after is Some, cs);
    let c4 = push_if(c3, f.sent_before is Some, cb);
    assert(c4 == filter_conditions(f));
    lemma_push_if(e, f.account_id is Some, ca);
    lemma_push_if(c1, f.mailbox_id is Some, cm);
    lemma_push_if(c2, f.sent_after is Some, cs);
    lemma_push_if(c3, f.sent_before is Some, cb);
    assert(render_conditions(e) =~= Seq::<char>::empty());
    assert(condition_values(e) =~= Seq::<(bool, Seq<char>, int)>::empty());
    assert(conditions_hold(e, row));
    assert(lexical_sql_spec(f) =~= lexical_base_sql() + render_conditions(c4) + lexical_order_sql());
    assert(lexical_params_spec(query, f, limit) =~= seq![(true, query, 0int)] + condition_values(c4) + seq![(false, Seq::<char>::empty(), limit)]);
}

} // verus!
