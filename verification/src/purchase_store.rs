//! Purchase orders and their item lines.
use vstd::prelude::*;
use crate::query::{SqlParam, SqlQuery, SqlValue, params_view};
use crate::text::owned;

verus! {

/// Finds live purchase order `id`.
pub const FIND_BY_ID: &'static str = "SELECT id, order_no, supplier_id, order_date, status, doc_status, total_amount,\n                currency, notes, created_by, created_at, updated_at, deleted_at\n         FROM purchase_orders WHERE id = ? AND deleted_at IS NULL";

/// Finds the live purchase order numbered `order_no`.
pub const FIND_BY_ORDER_NO: &'static str = "SELECT id, order_no, supplier_id, order_date, status, doc_status, total_amount,\n                currency, notes, created_by, created_at, updated_at, deleted_at\n         FROM purchase_orders WHERE order_no = ? AND deleted_at IS NULL";

/// The item lines of purchase order `order_id`, in order.
pub const LIST_ITEMS_FOR_ORDER: &'static str = "SELECT id, order_id, item_id, quantity, received_qty, unit_price, total_price,\n                notes, created_at\n         FROM purchase_order_items WHERE order_id = ? ORDER BY id";

/// Deletes every item line of purchase order `order_id` (before they are written anew).
pub const DELETE_ITEMS_FOR_ORDER: &'static str = "DELETE FROM purchase_order_items WHERE order_id = ?";

/// Soft-deletes purchase order `id`.
pub const SOFT_DELETE_ORDER: &'static str = "UPDATE purchase_orders SET deleted_at = datetime('now')\n         WHERE id = ? AND deleted_at IS NULL";

/// Finds live purchase order `id`.
pub fn find_by_id_query(id: i64) -> (r: SqlQuery)
    ensures
        r@.sql == FIND_BY_ID@,
        r@.params == seq![SqlValue::Int(id)],
{
    let mut params: Vec<SqlParam> = Vec::new();
    params.push(SqlParam::Int(id));
    proof {
        assert(params_view(params@) =~= seq![SqlValue::Int(id)]);
    }
    SqlQuery { sql: owned(FIND_BY_ID), params }
}

/// Finds the live purchase order numbered `order_no`.
pub fn find_by_order_no_query(order_no: &str) -> (r: SqlQuery)
    ensures
        r@.sql == FIND_BY_ORDER_NO@,
        r@.params == seq![SqlValue::Text(order_no@)],
{
    let mut params: Vec<SqlParam> = Vec::new();
    params.push(SqlParam::Text(owned(order_no)));
    proof {
        assert(params_view(params@) =~= seq![SqlValue::Text(order_no@)]);
    }
    SqlQuery { sql: owned(FIND_BY_ORDER_NO), params }
}

/// The item lines of purchase order `order_id`, in order.
pub fn list_items_for_order_query(order_id: i64) -> (r: SqlQuery)
    ensures
        r@.sql == LIST_ITEMS_FOR_ORDER@,
        r@.params == seq![SqlValue::Int(order_id)],
{
    let mut params: Vec<SqlParam> = Vec::new();
    params.push(SqlParam::Int(order_id));
    proof {
        assert(params_view(params@) =~= seq![SqlValue::Int(order_id)]);
    }
    SqlQuery { sql: owned(LIST_ITEMS_FOR_ORDER), params }
}

/// Deletes every item line of purchase order `order_id` (before they are written anew).
pub fn delete_items_for_order_query(order_id: i64) -> (r: SqlQuery)
    ensures
        r@.sql == DELETE_ITEMS_FOR_ORDER@,
        r@.params == seq![SqlValue::Int(order_id)],
{
    let mut params: Vec<SqlParam> = Vec::new();
    params.push(SqlParam::Int(order_id));
    proof {
        assert(params_view(params@) =~= seq![SqlValue::Int(order_id)]);
    }
    SqlQuery { sql: owned(DELETE_ITEMS_FOR_ORDER), params }
}

/// Soft-deletes purchase order `id`.
pub fn soft_delete_order_query(id: i64) -> (r: SqlQuery)
    ensures
        r@.sql == SOFT_DELETE_ORDER@,
        r@.params == seq![SqlValue::Int(id)],
{
    let mut params: Vec<SqlParam> = Vec::new();
    params.push(SqlParam::Int(id));
    proof {
        assert(params_view(params@) =~= seq![SqlValue::Int(id)]);
    }
    SqlQuery { sql: owned(SOFT_DELETE_ORDER), params }
}

} // verus!
