//! The audit trails: the operation log of user actions and the inventory log of
//! pipe movements.
use vstd::prelude::*;
use crate::query::{nullable_param, nullable_text, optional_int, optional_int_param};
use crate::text::owned;
use crate::listing::{numbered_page, numbered_page_text, push_numbered_value};
use crate::numbering::{int_text, push_i64};
use crate::pipes::decimal_param;
use crate::query::{clause_if, copy_params, params_view, string_param, ListQuery, SqlParam, SqlQuery, SqlValue};
use crate::text::{append_joined_strings, join_with, strings_view};

verus! {

/// Counts operation log entries; the conditions follow.
pub const OPLOG_COUNT_HEAD: &'static str = "SELECT COUNT(*) as cnt FROM operation_logs WHERE ";

/// Selects operation log entries; the conditions follow.
pub const OPLOG_ROWS_HEAD: &'static str = "SELECT id, user_id, username, action, entity_type, entity_id, details, ip_address, created_at
             FROM operation_logs WHERE ";

/// Newest first, then the page size placeholder up to its number.
pub const OPLOG_ORDER_LIMIT: &'static str = "
             ORDER BY created_at DESC LIMIT ?";

/// An offset placeholder up to its number.
pub const OFFSET_Q: &'static str = " OFFSET ?";

/// Stores one operation log entry and returns it.
pub const OPLOG_INSERT: &'static str = "INSERT INTO operation_logs (user_id, username, action, entity_type, entity_id, details, ip_address)
             VALUES (?, ?, ?, ?, ?, ?, ?)
             RETURNING id, user_id, username, action, entity_type, entity_id, details, ip_address, created_at";

/// The condition of an unfiltered list.
pub const ALL_ROWS: &'static str = "1=1";

/// User condition up to its placeholder number.
pub const USER_ID_IS: &'static str = "user_id = ?";

/// User name condition up to its placeholder number.
pub const USERNAME_IS: &'static str = "username = ?";

/// Action condition up to its placeholder number.
pub const ACTION_IS: &'static str = "action = ?";

/// Entity type condition up to its placeholder number.
pub const ENTITY_TYPE_IS: &'static str = "entity_type = ?";

/// Entity condition up to its placeholder number.
pub const ENTITY_ID_IS: &'static str = "entity_id = ?";

/// Counts inventory log entries; the conditions follow.
pub const INVLOG_COUNT_HEAD: &'static str = "SELECT COUNT(*) as cnt FROM inventory_logs WHERE ";

/// Selects inventory log entries; the conditions follow.
pub const INVLOG_ROWS_HEAD: &'static str = "SELECT id, pipe_type, pipe_id, change_type, ref_type, ref_id, from_location_id, to_location_id, notes, created_by, created_at FROM inventory_logs WHERE ";

/// Newest first; the page follows.
pub const INVLOG_ORDER: &'static str = " ORDER BY created_at DESC";

/// Pipe type condition up to its placeholder number.
pub const PIPE_TYPE_IS: &'static str = "pipe_type = $";

/// The location test up to its first placeholder number.
pub const FROM_LOCATION_IS: &'static str = "(from_location_id = $";

/// The location test's second placeholder up to its number.
pub const TO_LOCATION_IS: &'static str = " OR to_location_id = $";

/// Closes a parenthesis.
pub const CLOSE_PAREN: &'static str = ")";

/// One entry of the operation log.
pub struct OperationLog {
    pub id: i64,
    pub user_id: Option<i64>,
    pub username: Option<String>,
    pub action: String,
    pub entity_type: String,
    pub entity_id: Option<i64>,
    pub details: Option<String>,
    pub ip_address: Option<String>,
    pub created_at: String,
}

/// A new entry of the operation log.
pub struct CreateOperationLog {
    pub user_id: Option<i64>,
    pub username: Option<String>,
    pub action: String,
    pub entity_type: String,
    pub entity_id: Option<i64>,
    pub details: Option<String>,
    pub ip_address: Option<String>,
}

/// The filters of the operation log list (all optional).
pub struct OperationLogFilter {
    pub user_id: Option<i64>,
    pub username: Option<String>,
    pub action: Option<String>,
    pub entity_type: Option<String>,
    pub entity_id: Option<i64>,
}

/// The operation log.
pub struct OperationLogRepo;

/// The inventory log of pipe movements.
pub struct InventoryLogRepo;

/// 1 for a given filter, 0 for an absent one.
pub open spec fn count_if(b: bool) -> int {
    if b {
        1
    } else {
        0
    }
}

/// The conditions joined by ` AND `, or `1=1` when there is none.
pub open spec fn where_text(conds: Seq<Seq<char>>) -> Seq<char> {
    if conds.len() == 0 {
        ALL_ROWS@
    } else {
        join_with(conds, " AND "@)
    }
}

/// The conditions of the operation log list: each placeholder numbered by the
/// values bound up to and including its own.
pub open spec fn oplog_clauses(f: OperationLogFilter) -> Seq<Seq<char>> {
    let b1 = count_if(f.user_id is Some);
    let b2 = b1 + count_if(f.username is Some);
    let b3 = b2 + count_if(f.action is Some);
    let b4 = b3 + count_if(f.entity_type is Some);
    clause_if(f.user_id is Some, USER_ID_IS@ + int_text(1)) + clause_if(
        f.username is Some,
        USERNAME_IS@ + int_text(b1 + 1),
    ) + clause_if(f.action is Some, ACTION_IS@ + int_text(b2 + 1)) + clause_if(
        f.entity_type is Some,
        ENTITY_TYPE_IS@ + int_text(b3 + 1),
    ) + clause_if(f.entity_id is Some, ENTITY_ID_IS@ + int_text(b4 + 1))
}

/// The values bound to the operation log conditions, ids as their decimal text.
pub open spec fn oplog_params(f: OperationLogFilter) -> Seq<SqlValue> {
    decimal_param(f.user_id) + string_param(f.username) + string_param(f.action) + string_param(
        f.entity_type,
    ) + decimal_param(f.entity_id)
}

/// Appends the statement text `where` and writes the counting and page
/// statements of a list without sort choice.
fn fixed_page(
    count_head: &str,
    rows_head: &str,
    conds: &Vec<String>,
    params: &Vec<SqlParam>,
    page_tail: &str,
    page_size: i64,
    offset: i64,
) -> (r: ListQuery)
    ensures
        r.count@.sql == count_head@ + where_text(strings_view(conds@)),
        r.count@.params == params_view(params@),
        r.list@.sql == rows_head@ + where_text(strings_view(conds@)) + page_tail@,
        r.list@.params == params_view(params@) + seq![
            SqlValue::Int(page_size),
            SqlValue::Int(offset),
        ],
{
    let mut w = String::new();
    if conds.len() == 0 {
        w.append(ALL_ROWS);
    } else {
        append_joined_strings(&mut w, conds, " AND ");
    }
    proof {
        assert(w@ =~= where_text(strings_view(conds@)));
    }
    let mut count_sql = String::from_str(count_head);
    count_sql.append(w.as_str());
    let mut list_sql = String::from_str(rows_head);
    list_sql.append(w.as_str());
    list_sql.append(page_tail);
    let count_params = copy_params(params);
    let mut list_params = copy_params(params);
    let ghost lp = params_view(list_params@);
    list_params.push(SqlParam::Int(page_size));
    list_params.push(SqlParam::Int(offset));
    proof {
        assert(params_view(list_params@) =~= lp + seq![SqlValue::Int(page_size), SqlValue::Int(offset)]);
    }
    ListQuery {
        count: SqlQuery { sql: count_sql, params: count_params },
        list: SqlQuery { sql: list_sql, params: list_params },
    }
}

/// The page of the operation log: newest first, the page size and the offset
/// numbered after the `bound` filter values.
pub open spec fn oplog_page(bound: int) -> Seq<char> {
    OPLOG_ORDER_LIMIT@ + int_text(bound + 1) + OFFSET_Q@ + int_text(bound + 2)
}

fn push_id(conds: &mut Vec<String>, params: &mut Vec<SqlParam>, prefix: &str, v: Option<i64>)
    requires
        old(params)@.len() < 100,
    ensures
        strings_view(final(conds)@) == strings_view(old(conds)@) + clause_if(
            v is Some,
            prefix@ + int_text(old(params)@.len() as int + 1),
        ),
        params_view(final(params)@) == params_view(old(params)@) + decimal_param(v),
        final(params)@.len() == old(params)@.len() + count_if(v is Some),
{
    let ghost c0 = strings_view(conds@);
    let ghost p0 = params_view(params@);
    match v {
        Some(id) => {
            let mut text = String::new();
            push_i64(&mut text, id);
            proof {
                assert(text@ =~= int_text(id as int));
            }
            push_numbered_value(conds, params, prefix, SqlParam::Text(text));
        },
        None => {},
    }
    proof {
        assert(strings_view(conds@) =~= c0 + clause_if(v is Some, prefix@ + int_text(old(params)@.len() as int + 1)));
        assert(params_view(params@) =~= p0 + decimal_param(v));
    }
}

fn push_text(conds: &mut Vec<String>, params: &mut Vec<SqlParam>, prefix: &str, v: &Option<String>)
    requires
        old(params)@.len() < 100,
    ensures
        strings_view(final(conds)@) == strings_view(old(conds)@) + clause_if(
            v is Some,
            prefix@ + int_text(old(params)@.len() as int + 1),
        ),
        params_view(final(params)@) == params_view(old(params)@) + string_param(*v),
        final(params)@.len() == old(params)@.len() + count_if(v is Some),
{
    let ghost c0 = strings_view(conds@);
    let ghost p0 = params_view(params@);
    match v {
        Some(t) => {
            push_numbered_value(conds, params, prefix, SqlParam::Text(String::from_str(t.as_str())));
        },
        None => {},
    }
    proof {
        assert(strings_view(conds@) =~= c0 + clause_if(v is Some, prefix@ + int_text(old(params)@.len() as int + 1)));
        assert(params_view(params@) =~= p0 + string_param(*v));
    }
}

impl OperationLogRepo {
    /// The counting and page statements of the operation log: entries narrowed by
    /// each given filter (all entries when none is given), newest first, the page
    /// size and the offset bound after the filter values.
    pub fn list_query(filter: &OperationLogFilter, page_size: i64, offset: i64) -> (r: ListQuery)
        ensures
            r.count@.sql == OPLOG_COUNT_HEAD@ + where_text(oplog_clauses(*filter)),
            r.count@.params == oplog_params(*filter),
            r.list@.sql == OPLOG_ROWS_HEAD@ + where_text(oplog_clauses(*filter)) + oplog_page(
                oplog_params(*filter).len() as int,
            ),
            r.list@.params == oplog_params(*filter) + seq![
                SqlValue::Int(page_size),
                SqlValue::Int(offset),
            ],
    {
        let mut conds: Vec<String> = Vec::new();
        let mut params: Vec<SqlParam> = Vec::new();
        proof {
            assert(strings_view(conds@) =~= Seq::<Seq<char>>::empty());
            assert(params_view(params@) =~= Seq::<SqlValue>::empty());
        }
        push_id(&mut conds, &mut params, USER_ID_IS, filter.user_id);
        push_text(&mut conds, &mut params, USERNAME_IS, &filter.username);
        push_text(&mut conds, &mut params, ACTION_IS, &filter.action);
        push_text(&mut conds, &mut params, ENTITY_TYPE_IS, &filter.entity_type);
        push_id(&mut conds, &mut params, ENTITY_ID_IS, filter.entity_id);
        proof {
            assert(strings_view(conds@) =~= oplog_clauses(*filter));
            assert(params_view(params@) =~= oplog_params(*filter));
        }
        let n = params.len();
        let mut tail = String::from_str(OPLOG_ORDER_LIMIT);
        push_i64(&mut tail, (n + 1) as i64);
        tail.append(OFFSET_Q);
        push_i64(&mut tail, (n + 2) as i64);
        proof {
            assert(tail@ =~= oplog_page(oplog_params(*filter).len() as int));
        }
        fixed_page(OPLOG_COUNT_HEAD, OPLOG_ROWS_HEAD, &conds, &params, tail.as_str(), page_size, offset)
    }
}

/// An optional id, or NULL.
pub open spec fn nullable_int(v: Option<i64>) -> SqlValue {
    match v {
        Some(n) => SqlValue::Int(n),
        None => SqlValue::Null,
    }
}

/// An optional text, or NULL.
pub open spec fn nullable_string(v: Option<String>) -> SqlValue {
    match v {
        Some(t) => SqlValue::Text(t@),
        None => SqlValue::Null,
    }
}

fn int_or_null(v: Option<i64>) -> (r: SqlParam)
    ensures
        r@ == nullable_int(v),
{
    match v {
        Some(n) => SqlParam::Int(n),
        None => SqlParam::Null,
    }
}

fn string_or_null(v: &Option<String>) -> (r: SqlParam)
    ensures
        r@ == nullable_string(*v),
{
    match v {
        Some(t) => SqlParam::Text(t.clone()),
        None => SqlParam::Null,
    }
}

impl OperationLogRepo {
    /// The statement that stores `log` and returns it: user, user name, action,
    /// entity type, entity, details and address, each absent one as NULL.
    pub fn create_query(log: &CreateOperationLog) -> (r: SqlQuery)
        ensures
            r@.sql == OPLOG_INSERT@,
            r@.params == seq![
                nullable_int(log.user_id),
                nullable_string(log.username),
                SqlValue::Text(log.action@),
                SqlValue::Text(log.entity_type@),
                nullable_int(log.entity_id),
                nullable_string(log.details),
                nullable_string(log.ip_address),
            ],
    {
        let mut params: Vec<SqlParam> = Vec::new();
        params.push(int_or_null(log.user_id));
        params.push(string_or_null(&log.username));
        params.push(SqlParam::Text(log.action.clone()));
        params.push(SqlParam::Text(log.entity_type.clone()));
        params.push(int_or_null(log.entity_id));
        params.push(string_or_null(&log.details));
        params.push(string_or_null(&log.ip_address));
        proof {
            assert(params_view(params@) =~= seq![
                nullable_int(log.user_id),
                nullable_string(log.username),
                SqlValue::Text(log.action@),
                SqlValue::Text(log.entity_type@),
                nullable_int(log.entity_id),
                nullable_string(log.details),
                nullable_string(log.ip_address),
            ]);
        }
        SqlQuery { sql: String::from_str(OPLOG_INSERT), params }
    }
}

/// The filters of the inventory log list.
pub struct MovementLogFilter {
    pub pipe_type: Option<String>,
    pub location_id: Option<i64>,
}

/// The conditions of the inventory log list: the pipe type, and a location that
/// the pipe left or reached, each placeholder numbered by the values bound before.
pub open spec fn invlog_clauses(f: MovementLogFilter) -> Seq<Seq<char>> {
    let b = count_if(f.pipe_type is Some);
    clause_if(f.pipe_type is Some, PIPE_TYPE_IS@ + int_text(1)) + clause_if(
        f.location_id is Some,
        FROM_LOCATION_IS@ + int_text(b + 1) + TO_LOCATION_IS@ + int_text(b + 2) + CLOSE_PAREN@,
    )
}

/// The values bound to the inventory log conditions: the pipe type, then the
/// location id twice as its decimal text.
pub open spec fn invlog_params(f: MovementLogFilter) -> Seq<SqlValue> {
    string_param(f.pipe_type) + decimal_param(f.location_id) + decimal_param(f.location_id)
}

impl InventoryLogRepo {
    /// The counting and page statements of the inventory log: entries narrowed by
    /// each given filter (all entries when none is given), newest first, then
    /// ` LIMIT $k+1 OFFSET $k+2` with the page size and the offset bound after the `k`
    /// filter values.
    pub fn list_query(filter: &MovementLogFilter, page_size: i64, offset: i64) -> (r: ListQuery)
        ensures
            r.count@.sql == INVLOG_COUNT_HEAD@ + where_text(invlog_clauses(*filter)),
            r.count@.params == invlog_params(*filter),
            r.list@.sql == INVLOG_ROWS_HEAD@ + where_text(invlog_clauses(*filter)) + INVLOG_ORDER@
                + numbered_page(invlog_params(*filter).len() as int),
            r.list@.params == invlog_params(*filter) + seq![
                SqlValue::Int(page_size),
                SqlValue::Int(offset),
            ],
    {
        let mut conds: Vec<String> = Vec::new();
        let mut params: Vec<SqlParam> = Vec::new();
        proof {
            assert(strings_view(conds@) =~= Seq::<Seq<char>>::empty());
            assert(params_view(params@) =~= Seq::<SqlValue>::empty());
        }
        push_text(&mut conds, &mut params, PIPE_TYPE_IS, &filter.pipe_type);
        let ghost c1 = strings_view(conds@);
        let ghost p1 = params_view(params@);
        match filter.location_id {
            Some(id) => {
                let n = params.len();
                let mut c = String::from_str(FROM_LOCATION_IS);
                push_i64(&mut c, (n + 1) as i64);
                c.append(TO_LOCATION_IS);
                push_i64(&mut c, (n + 2) as i64);
                c.append(CLOSE_PAREN);
                conds.push(c);
                let mut t1 = String::new();
                push_i64(&mut t1, id);
                let mut t2 = String::new();
                push_i64(&mut t2, id);
                params.push(SqlParam::Text(t1));
                params.push(SqlParam::Text(t2));
            },
            None => {},
        }
        proof {
            assert(strings_view(conds@) =~= invlog_clauses(*filter));
            assert(params_view(params@) =~= invlog_params(*filter));
        }
        proof {
            assert(params@.len() <= 3);
        }
        let mut tail = String::from_str(INVLOG_ORDER);
        let numbered = numbered_page_text(params.len());
        tail.append(numbered.as_str());
        fixed_page(INVLOG_COUNT_HEAD, INVLOG_ROWS_HEAD, &conds, &params, tail.as_str(), page_size, offset)
    }
}


/// Records one pipe movement and returns it.
pub const INVLOG_CREATE: &'static str = "INSERT INTO inventory_logs (pipe_type, pipe_id, change_type, ref_type, ref_id, from_location_id, to_location_id, notes, created_by) VALUES ($1, $2, $3, $4, $5, $6, $7, $8, $9) RETURNING id, pipe_type, pipe_id, change_type, ref_type, ref_id, from_location_id, to_location_id, notes, created_by, created_at";

/// The movements of pipe `pipe_id` of kind `pipe_type`, oldest first.
pub const INVLOG_BY_PIPE: &'static str = "SELECT id, pipe_type, pipe_id, change_type, ref_type, ref_id, from_location_id, to_location_id, notes, created_by, created_at FROM inventory_logs WHERE pipe_type = $1 AND pipe_id = $2 ORDER BY created_at ASC";

impl InventoryLogRepo {
    /// Records one pipe movement and returns it.
    pub fn create_query(pipe_type: &str, pipe_id: i64, change_type: &str, ref_type: Option<&str>, ref_id: Option<i64>, from_location_id: Option<i64>, to_location_id: Option<i64>, notes: Option<&str>, created_by: Option<i64>) -> (r: SqlQuery)
        ensures
            r@.sql == INVLOG_CREATE@,
            r@.params == seq![SqlValue::Text(pipe_type@), SqlValue::Int(pipe_id), SqlValue::Text(change_type@), nullable_text(ref_type), optional_int(ref_id), optional_int(from_location_id), optional_int(to_location_id), nullable_text(notes), optional_int(created_by)],
    {
        let mut params: Vec<SqlParam> = Vec::new();
        params.push(SqlParam::Text(owned(pipe_type)));
        params.push(SqlParam::Int(pipe_id));
        params.push(SqlParam::Text(owned(change_type)));
        params.push(nullable_param(ref_type));
        params.push(optional_int_param(ref_id));
        params.push(optional_int_param(from_location_id));
        params.push(optional_int_param(to_location_id));
        params.push(nullable_param(notes));
        params.push(optional_int_param(created_by));
        proof {
            assert(params_view(params@) =~= seq![SqlValue::Text(pipe_type@), SqlValue::Int(pipe_id), SqlValue::Text(change_type@), nullable_text(ref_type), optional_int(ref_id), optional_int(from_location_id), optional_int(to_location_id), nullable_text(notes), optional_int(created_by)]);
        }
        SqlQuery { sql: owned(INVLOG_CREATE), params }
    }

    /// The movements of pipe `pipe_id` of kind `pipe_type`, oldest first.
    pub fn find_by_pipe_query(pipe_type: &str, pipe_id: i64) -> (r: SqlQuery)
        ensures
            r@.sql == INVLOG_BY_PIPE@,
            r@.params == seq![SqlValue::Text(pipe_type@), SqlValue::Int(pipe_id)],
    {
        let mut params: Vec<SqlParam> = Vec::new();
        params.push(SqlParam::Text(owned(pipe_type)));
        params.push(SqlParam::Int(pipe_id));
        proof {
            assert(params_view(params@) =~= seq![SqlValue::Text(pipe_type@), SqlValue::Int(pipe_id)]);
        }
        SqlQuery { sql: owned(INVLOG_BY_PIPE), params }
    }
}

} // verus!
