//! Inventory checks: the check sessions and the counted items, and the rule that
//! decides whether a counted pipe matches.
use vstd::prelude::*;
use crate::query::{nullable_param, nullable_text, optional_int, optional_int_param};
use crate::query::{params_view, ListQuery, SqlParam, SqlQuery, SqlValue};
use crate::text::{owned, str_eq};

verus! {

/// Inventory check records and their items.
pub struct CheckRepo;

/// One check session.
pub struct CheckSessionRow {
    pub id: i64,
    pub session_no: String,
    pub location_id: Option<i64>,
    pub scope: String,
    pub status: String,
    pub created_by: Option<i64>,
    pub created_at: String,
    pub updated_at: String,
}

/// Counts the check records not deleted.
pub const CHECK_COUNT: &'static str = "SELECT COUNT(*) as cnt FROM inventory_check_records WHERE deleted_at IS NULL";

/// The newest check records, one page.
pub const CHECK_PAGE: &'static str = "SELECT id, check_no, location_id, status, notes, created_by, created_at, updated_at, deleted_at FROM inventory_check_records WHERE deleted_at IS NULL ORDER BY created_at DESC LIMIT $1 OFFSET $2";

/// The expected status of one item of one check.
pub const CHECK_EXPECTED: &'static str = "SELECT expected_status FROM inventory_check_items WHERE id = $1 AND check_id = $2";

/// Stores the counted status of one item of one check and returns the item.
pub const CHECK_ITEM_RESULT: &'static str = "UPDATE inventory_check_items SET found_status = $1, is_match = $2, notes = $3 WHERE id = $4 AND check_id = $5 RETURNING id, check_id, pipe_type, pipe_id, expected_status, found_status, is_match, notes, created_at";

/// A counted pipe matches when the checker confirms it as `found`, or when the
/// status submitted equals the expected one.
pub open spec fn is_match(found_status: Seq<char>, expected_status: Seq<char>) -> bool {
    found_status == "found"@ || found_status == expected_status
}

/// The notes bound as text, or NULL.
pub open spec fn notes_value(notes: Option<String>) -> SqlValue {
    match notes {
        Some(t) => SqlValue::Text(t@),
        None => SqlValue::Null,
    }
}

impl CheckRepo {
    /// The stored match flag of a counted item: 1 when it matches, 0 otherwise.
    pub fn match_flag(found_status: &str, expected_status: &str) -> (r: i64)
        ensures
            r == (if is_match(found_status@, expected_status@) {
                1i64
            } else {
                0i64
            }),
    {
        if str_eq(found_status, "found") || str_eq(found_status, expected_status) {
            1
        } else {
            0
        }
    }

    /// The counting and page statements of the check record list: records not
    /// deleted, newest first, `page_size` rows after `offset` rows.
    pub fn list_query(page_size: i64, offset: i64) -> (r: ListQuery)
        ensures
            r.count@.sql == CHECK_COUNT@,
            r.count@.params.len() == 0,
            r.list@.sql == CHECK_PAGE@,
            r.list@.params == seq![SqlValue::Int(page_size), SqlValue::Int(offset)],
    {
        let mut params: Vec<SqlParam> = Vec::new();
        params.push(SqlParam::Int(page_size));
        params.push(SqlParam::Int(offset));
        proof {
            assert(params_view(params@) =~= seq![SqlValue::Int(page_size), SqlValue::Int(offset)]);
        }
        ListQuery {
            count: SqlQuery { sql: owned(CHECK_COUNT), params: Vec::new() },
            list: SqlQuery { sql: owned(CHECK_PAGE), params },
        }
    }

    /// The lookup of the expected status of `item_id` in check `check_id`.
    pub fn expected_status_query(check_id: i64, item_id: i64) -> (r: SqlQuery)
        ensures
            r@.sql == CHECK_EXPECTED@,
            r@.params == seq![SqlValue::Int(item_id), SqlValue::Int(check_id)],
    {
        let mut params: Vec<SqlParam> = Vec::new();
        params.push(SqlParam::Int(item_id));
        params.push(SqlParam::Int(check_id));
        proof {
            assert(params_view(params@) =~= seq![SqlValue::Int(item_id), SqlValue::Int(check_id)]);
        }
        SqlQuery { sql: owned(CHECK_EXPECTED), params }
    }

    /// The statement that records the counted status of `item_id` in check
    /// `check_id`, with its match flag against `expected_status` and the notes.
    pub fn item_result_query(
        check_id: i64,
        item_id: i64,
        found_status: &str,
        expected_status: &str,
        notes: &Option<String>,
    ) -> (r: SqlQuery)
        ensures
            r@.sql == CHECK_ITEM_RESULT@,
            r@.params == seq![
                SqlValue::Text(found_status@),
                SqlValue::Int(
                    if is_match(found_status@, expected_status@) {
                        1i64
                    } else {
                        0i64
                    },
                ),
                notes_value(*notes),
                SqlValue::Int(item_id),
                SqlValue::Int(check_id),
            ],
    {
        let flag = Self::match_flag(found_status, expected_status);
        let n = match notes {
            Some(t) => SqlParam::Text(t.clone()),
            None => SqlParam::Null,
        };
        let mut params: Vec<SqlParam> = Vec::new();
        params.push(SqlParam::Text(owned(found_status)));
        params.push(SqlParam::Int(flag));
        params.push(n);
        params.push(SqlParam::Int(item_id));
        params.push(SqlParam::Int(check_id));
        proof {
            assert(params_view(params@) =~= seq![
                SqlValue::Text(found_status@),
                SqlValue::Int(flag),
                notes_value(*notes),
                SqlValue::Int(item_id),
                SqlValue::Int(check_id),
            ]);
        }
        SqlQuery { sql: owned(CHECK_ITEM_RESULT), params }
    }
}

/// Opens pipe count `check_no` in status `in_progress` and returns it.
pub const CHECK_CREATE: &'static str = "INSERT INTO inventory_check_records (check_no, location_id, status, notes) VALUES ($1, $2, 'in_progress', $3) RETURNING id, check_no, location_id, status, notes, created_by, created_at, updated_at, deleted_at";

/// Adds pipe `pipe_id` of kind `pipe_type`, expected in status `expected_status`, to pipe count `check_id`.
pub const CHECK_ITEM_CREATE: &'static str = "INSERT INTO inventory_check_items (check_id, pipe_type, pipe_id, expected_status) VALUES ($1, $2, $3, $4)";

/// Finds live pipe count `id`.
pub const CHECK_BY_ID: &'static str = "SELECT id, check_no, location_id, status, notes, created_by, created_at, updated_at, deleted_at FROM inventory_check_records WHERE id = $1 AND deleted_at IS NULL";

/// The pipes of pipe count `check_id`, by id.
pub const CHECK_ITEMS: &'static str = "SELECT id, check_id, pipe_type, pipe_id, expected_status, found_status, is_match, notes, created_at FROM inventory_check_items WHERE check_id = $1 ORDER BY id";

/// Sets the status of live pipe count `check_id`.
pub const CHECK_STATUS: &'static str = "UPDATE inventory_check_records SET status = $1, updated_at = NOW() WHERE id = $2 AND deleted_at IS NULL";

/// Counts the pipes of pipe count `check_id` not yet found as expected (unchecked or mismatched).
pub const CHECK_MISMATCHES: &'static str = "SELECT COUNT(*) FROM inventory_check_items WHERE check_id = $1 AND (is_match IS NULL OR is_match = 0)";

impl CheckRepo {
    /// Opens pipe count `check_no` in status `in_progress` and returns it.
    pub fn create_query(check_no: &str, location_id: Option<i64>, notes: Option<&str>) -> (r: SqlQuery)
        ensures
            r@.sql == CHECK_CREATE@,
            r@.params == seq![SqlValue::Text(check_no@), optional_int(location_id), nullable_text(notes)],
    {
        let mut params: Vec<SqlParam> = Vec::new();
        params.push(SqlParam::Text(owned(check_no)));
        params.push(optional_int_param(location_id));
        params.push(nullable_param(notes));
        proof {
            assert(params_view(params@) =~= seq![SqlValue::Text(check_no@), optional_int(location_id), nullable_text(notes)]);
        }
        SqlQuery { sql: owned(CHECK_CREATE), params }
    }

    /// Adds pipe `pipe_id` of kind `pipe_type`, expected in status `expected_status`, to pipe count `check_id`.
    pub fn create_item_query(check_id: i64, pipe_type: &str, pipe_id: i64, expected_status: &str) -> (r: SqlQuery)
        ensures
            r@.sql == CHECK_ITEM_CREATE@,
            r@.params == seq![SqlValue::Int(check_id), SqlValue::Text(pipe_type@), SqlValue::Int(pipe_id), SqlValue::Text(expected_status@)],
    {
        let mut params: Vec<SqlParam> = Vec::new();
        params.push(SqlParam::Int(check_id));
        params.push(SqlParam::Text(owned(pipe_type)));
        params.push(SqlParam::Int(pipe_id));
        params.push(SqlParam::Text(owned(expected_status)));
        proof {
            assert(params_view(params@) =~= seq![SqlValue::Int(check_id), SqlValue::Text(pipe_type@), SqlValue::Int(pipe_id), SqlValue::Text(expected_status@)]);
        }
        SqlQuery { sql: owned(CHECK_ITEM_CREATE), params }
    }

    /// Finds live pipe count `id`.
    pub fn find_by_id_query(id: i64) -> (r: SqlQuery)
        ensures
            r@.sql == CHECK_BY_ID@,
            r@.params == seq![SqlValue::Int(id)],
    {
        let mut params: Vec<SqlParam> = Vec::new();
        params.push(SqlParam::Int(id));
        proof {
            assert(params_view(params@) =~= seq![SqlValue::Int(id)]);
        }
        SqlQuery { sql: owned(CHECK_BY_ID), params }
    }

    /// The pipes of pipe count `check_id`, by id.
    pub fn check_items_query(check_id: i64) -> (r: SqlQuery)
        ensures
            r@.sql == CHECK_ITEMS@,
            r@.params == seq![SqlValue::Int(check_id)],
    {
        let mut params: Vec<SqlParam> = Vec::new();
        params.push(SqlParam::Int(check_id));
        proof {
            assert(params_view(params@) =~= seq![SqlValue::Int(check_id)]);
        }
        SqlQuery { sql: owned(CHECK_ITEMS), params }
    }

    /// Sets the status of live pipe count `check_id`.
    pub fn update_status_query(check_id: i64, status: &str) -> (r: SqlQuery)
        ensures
            r@.sql == CHECK_STATUS@,
            r@.params == seq![SqlValue::Text(status@), SqlValue::Int(check_id)],
    {
        let mut params: Vec<SqlParam> = Vec::new();
        params.push(SqlParam::Text(owned(status)));
        params.push(SqlParam::Int(check_id));
        proof {
            assert(params_view(params@) =~= seq![SqlValue::Text(status@), SqlValue::Int(check_id)]);
        }
        SqlQuery { sql: owned(CHECK_STATUS), params }
    }

    /// Counts the pipes of pipe count `check_id` not yet found as expected (unchecked or mismatched).
    pub fn mismatch_count_query(check_id: i64) -> (r: SqlQuery)
        ensures
            r@.sql == CHECK_MISMATCHES@,
            r@.params == seq![SqlValue::Int(check_id)],
    {
        let mut params: Vec<SqlParam> = Vec::new();
        params.push(SqlParam::Int(check_id));
        proof {
            assert(params_view(params@) =~= seq![SqlValue::Int(check_id)]);
        }
        SqlQuery { sql: owned(CHECK_MISMATCHES), params }
    }
}

/// A counted pipe whose submitted status equals the expected one always matches,
/// whatever that status is; one confirmed as `found` matches whatever was expected;
/// any other status different from the expected one is a mismatch.
pub proof fn lemma_equal_status_matches(s: Seq<char>, found: Seq<char>, expected: Seq<char>)
    ensures
        is_match(s, s),
        is_match("found"@, expected),
        found != "found"@ && found != expected ==> !is_match(found, expected),
{
}

} // verus!
