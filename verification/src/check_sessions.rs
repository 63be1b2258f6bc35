//! Stock-count sessions (`check_records`) and their lines (`check_items`): the
//! statements that read and move them.
use vstd::prelude::*;
use crate::query::SqlQuery;
use crate::query::SqlParam;
use crate::query::SqlValue;
use crate::query::params_view;
use crate::text::owned;

verus! {

/// Adds a line to a count session: session id, item id, then the recorded quantity,
/// a floating-point value that the caller binds.
pub const SESSION_DETAIL_INSERT: &'static str = "INSERT INTO check_items (record_id, item_id, system_qty)
         VALUES (?, ?, ?)";

/// Records a counted quantity and its difference from the recorded one: the counted
/// quantity (a floating-point value, bound twice by the caller), then the line id.
pub const SESSION_DETAIL_COUNT: &'static str = "UPDATE check_items
         SET actual_qty = ?, diff = ? - COALESCE(system_qty, 0.0)
         WHERE id = ?";

/// Opens a count session in status `draft`.
pub const SESSION_INSERT: &'static str = "INSERT INTO check_records (record_no, location_id, status, created_by)\n         VALUES (?, ?, 'draft', ?)";

/// A live count session by id.
pub const SESSION_BY_ID: &'static str = "SELECT id, record_no AS session_no, location_id, 'all' AS scope, status,\n                created_by, created_at, updated_at\n         FROM check_records WHERE id = ? AND deleted_at IS NULL";

/// The lines of one count session, in order.
pub const SESSION_DETAILS: &'static str = "SELECT ci.id, ci.record_id AS session_id, ci.item_id, cr.location_id,\n                COALESCE(ci.system_qty, 0.0) AS system_qty, ci.actual_qty,\n                ci.diff AS diff_qty\n         FROM check_items ci\n         JOIN check_records cr ON cr.id = ci.record_id\n         WHERE ci.record_id = ?\n         ORDER BY ci.id";

/// One count line by id.
pub const SESSION_DETAIL_BY_ID: &'static str = "SELECT ci.id, ci.record_id AS session_id, ci.item_id, cr.location_id,\n                COALESCE(ci.system_qty, 0.0) AS system_qty, ci.actual_qty,\n                ci.diff AS diff_qty\n         FROM check_items ci\n         JOIN check_records cr ON cr.id = ci.record_id\n         WHERE ci.id = ?";

/// Moves a live count session to a new status.
pub const SESSION_STATUS: &'static str = "UPDATE check_records SET status = ?, updated_at = datetime('now')\n         WHERE id = ? AND deleted_at IS NULL";

/// The recorded balances at one location, by item.
pub const SESSION_SNAPSHOT: &'static str = "SELECT item_id, location_id, quantity FROM inventory\n         WHERE location_id = ? ORDER BY item_id";

/// Opens count session `session_no` at location `location_id` for user `user_id`.
pub fn insert_session_query(session_no: &str, location_id: i64, user_id: i64) -> (r: SqlQuery)
    ensures
        r@.sql == SESSION_INSERT@,
        r@.params == seq![SqlValue::Text(session_no@), SqlValue::Int(location_id), SqlValue::Int(user_id)],
{
    let mut params: Vec<SqlParam> = Vec::new();
    params.push(SqlParam::Text(owned(session_no)));
    params.push(SqlParam::Int(location_id));
    params.push(SqlParam::Int(user_id));
    proof {
        assert(params_view(params@) =~= seq![SqlValue::Text(session_no@), SqlValue::Int(location_id), SqlValue::Int(user_id)]);
    }
    SqlQuery { sql: owned(SESSION_INSERT), params }
}

/// Finds count session `id`, unless deleted.
pub fn find_session_by_id_query(id: i64) -> (r: SqlQuery)
    ensures
        r@.sql == SESSION_BY_ID@,
        r@.params == seq![SqlValue::Int(id)],
{
    let mut params: Vec<SqlParam> = Vec::new();
    params.push(SqlParam::Int(id));
    proof {
        assert(params_view(params@) =~= seq![SqlValue::Int(id)]);
    }
    SqlQuery { sql: owned(SESSION_BY_ID), params }
}

/// The lines of count session `session_id`, each with the location of its session.
pub fn list_details_for_session_query(session_id: i64) -> (r: SqlQuery)
    ensures
        r@.sql == SESSION_DETAILS@,
        r@.params == seq![SqlValue::Int(session_id)],
{
    let mut params: Vec<SqlParam> = Vec::new();
    params.push(SqlParam::Int(session_id));
    proof {
        assert(params_view(params@) =~= seq![SqlValue::Int(session_id)]);
    }
    SqlQuery { sql: owned(SESSION_DETAILS), params }
}

/// Finds count line `detail_id`.
pub fn find_detail_by_id_query(detail_id: i64) -> (r: SqlQuery)
    ensures
        r@.sql == SESSION_DETAIL_BY_ID@,
        r@.params == seq![SqlValue::Int(detail_id)],
{
    let mut params: Vec<SqlParam> = Vec::new();
    params.push(SqlParam::Int(detail_id));
    proof {
        assert(params_view(params@) =~= seq![SqlValue::Int(detail_id)]);
    }
    SqlQuery { sql: owned(SESSION_DETAIL_BY_ID), params }
}

/// Sets the status of count session `session_id`; no row changed means it was not found.
pub fn update_session_status_query(status: &str, session_id: i64) -> (r: SqlQuery)
    ensures
        r@.sql == SESSION_STATUS@,
        r@.params == seq![SqlValue::Text(status@), SqlValue::Int(session_id)],
{
    let mut params: Vec<SqlParam> = Vec::new();
    params.push(SqlParam::Text(owned(status)));
    params.push(SqlParam::Int(session_id));
    proof {
        assert(params_view(params@) =~= seq![SqlValue::Text(status@), SqlValue::Int(session_id)]);
    }
    SqlQuery { sql: owned(SESSION_STATUS), params }
}

/// The balances recorded at location `location_id`, by item: what a new session expects to count.
pub fn system_snapshot_query(location_id: i64) -> (r: SqlQuery)
    ensures
        r@.sql == SESSION_SNAPSHOT@,
        r@.params == seq![SqlValue::Int(location_id)],
{
    let mut params: Vec<SqlParam> = Vec::new();
    params.push(SqlParam::Int(location_id));
    proof {
        assert(params_view(params@) =~= seq![SqlValue::Int(location_id)]);
    }
    SqlQuery { sql: owned(SESSION_SNAPSHOT), params }
}

} // verus!
