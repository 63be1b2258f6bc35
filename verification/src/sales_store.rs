//! Sales orders, their item lines, and the stock balances that reservations are checked against.
use vstd::prelude::*;
use crate::query::{SqlParam, SqlQuery, SqlValue, nullable_param, nullable_text, optional_int, optional_int_param, params_view};
use crate::text::owned;

verus! {

/// Finds live sales order `id`.
pub const FIND_BY_ID: &'static str = "SELECT id, order_no, customer_id, order_date, status, doc_status,\n                total_amount, currency, notes, created_by, created_at, updated_at, deleted_at\n         FROM sales_orders WHERE id = ? AND deleted_at IS NULL";

/// Finds the live sales order numbered `order_no`.
pub const FIND_BY_ORDER_NO: &'static str = "SELECT id, order_no, customer_id, order_date, status, doc_status,\n                total_amount, currency, notes, created_by, created_at, updated_at, deleted_at\n         FROM sales_orders WHERE order_no = ? AND deleted_at IS NULL";

/// Creates a sales order header with the given status and document status; the total is decimal text.
pub const INSERT_ORDER: &'static str = "INSERT INTO sales_orders\n            (order_no, customer_id, order_date, status, doc_status, total_amount,\n             currency, notes, created_by)\n         VALUES (?, ?, ?, ?, ?, ?, ?, ?, ?)";

/// The item lines of sales order `order_id`, in order.
pub const LIST_ITEMS_FOR_ORDER: &'static str = "SELECT id, order_id, item_id, quantity, shipped_qty, unit_price, total_price,\n                notes, created_at\n         FROM sales_order_items WHERE order_id = ? ORDER BY id";

/// Sets status and document status of live sales order `id`.
pub const UPDATE_STATUS: &'static str = "UPDATE sales_orders SET status = ?, doc_status = ?, updated_at = datetime('now')\n         WHERE id = ? AND deleted_at IS NULL";

/// Sets the header fields of sales order `id` while it is a draft.
pub const UPDATE_ORDER: &'static str = "UPDATE sales_orders SET customer_id = ?, order_date = ?, total_amount = ?,\n           currency = ?, notes = ?, updated_at = datetime('now')\n         WHERE id = ? AND deleted_at IS NULL AND status = 'draft'";

/// Deletes every item line of sales order `order_id` (before they are written anew).
pub const DELETE_ITEMS_FOR_ORDER: &'static str = "DELETE FROM sales_order_items WHERE order_id = ?";

/// Soft-deletes sales order `id` while it is a draft.
pub const SOFT_DELETE_ORDER: &'static str = "UPDATE sales_orders SET deleted_at = datetime('now')\n         WHERE id = ? AND deleted_at IS NULL AND status = 'draft'";

/// The active reservations of sales order `order_id`, by id.
pub const LIST_ACTIVE_RESERVATIONS_FOR_ORDER: &'static str = "SELECT id, item_id, quantity, order_type, order_id, status, created_by,\n                created_at, released_at\n         FROM reservations WHERE order_id = ? AND order_type = 'sales' AND status = 'active'\n         ORDER BY id";

/// Finds live sales order `id`.
pub fn find_by_id_query(id: i64) -> (r: SqlQuery)
    ensures
        r@.sql == FIND_BY_ID@,
        r@.params == seq![SqlValue::Int(id)],
{
    let mut params: Vec<SqlParam> = Vec::new();
    params.push(SqlParam::Int(id));
    proof {
        assert(params_view(params@) =~= seq![SqlValue::Int(id)]);
    }
    SqlQuery { sql: owned(FIND_BY_ID), params }
}

/// Finds the live sales order numbered `order_no`.
pub fn find_by_order_no_query(order_no: &str) -> (r: SqlQuery)
    ensures
        r@.sql == FIND_BY_ORDER_NO@,
        r@.params == seq![SqlValue::Text(order_no@)],
{
    let mut params: Vec<SqlParam> = Vec::new();
    params.push(SqlParam::Text(owned(order_no)));
    proof {
        assert(params_view(params@) =~= seq![SqlValue::Text(order_no@)]);
    }
    SqlQuery { sql: owned(FIND_BY_ORDER_NO), params }
}

/// Creates a sales order header with the given status and document status; the total is decimal text.
pub fn insert_order_query(order_no: &str, customer_id: i64, order_date: &str, status: &str, doc_status: i64, total_amount: &str, currency: &str, notes: Option<&str>, created_by: Option<i64>) -> (r: SqlQuery)
    ensures
        r@.sql == INSERT_ORDER@,
        r@.params == seq![SqlValue::Text(order_no@), SqlValue::Int(customer_id), SqlValue::Text(order_date@), SqlValue::Text(status@), SqlValue::Int(doc_status), SqlValue::Text(total_amount@), SqlValue::Text(currency@), nullable_text(notes), optional_int(created_by)],
{
    let mut params: Vec<SqlParam> = Vec::new();
    params.push(SqlParam::Text(owned(order_no)));
    params.push(SqlParam::Int(customer_id));
    params.push(SqlParam::Text(owned(order_date)));
    params.push(SqlParam::Text(owned(status)));
    params.push(SqlParam::Int(doc_status));
    params.push(SqlParam::Text(owned(total_amount)));
    params.push(SqlParam::Text(owned(currency)));
    params.push(nullable_param(notes));
    params.push(optional_int_param(created_by));
    proof {
        assert(params_view(params@) =~= seq![SqlValue::Text(order_no@), SqlValue::Int(customer_id), SqlValue::Text(order_date@), SqlValue::Text(status@), SqlValue::Int(doc_status), SqlValue::Text(total_amount@), SqlValue::Text(currency@), nullable_text(notes), optional_int(created_by)]);
    }
    SqlQuery { sql: owned(INSERT_ORDER), params }
}

/// The item lines of sales order `order_id`, in order.
pub fn list_items_for_order_query(order_id: i64) -> (r: SqlQuery)
    ensures
        r@.sql == LIST_ITEMS_FOR_ORDER@,
        r@.params == seq![SqlValue::Int(order_id)],
{
    let mut params: Vec<SqlParam> = Vec::new();
    params.push(SqlParam::Int(order_id));
    proof {
        assert(params_view(params@) =~= seq![SqlValue::Int(order_id)]);
    }
    SqlQuery { sql: owned(LIST_ITEMS_FOR_ORDER), params }
}

/// Sets status and document status of live sales order `id`.
pub fn update_status_query(id: i64, status: &str, doc_status: i64) -> (r: SqlQuery)
    ensures
        r@.sql == UPDATE_STATUS@,
        r@.params == seq![SqlValue::Text(status@), SqlValue::Int(doc_status), SqlValue::Int(id)],
{
    let mut params: Vec<SqlParam> = Vec::new();
    params.push(SqlParam::Text(owned(status)));
    params.push(SqlParam::Int(doc_status));
    params.push(SqlParam::Int(id));
    proof {
        assert(params_view(params@) =~= seq![SqlValue::Text(status@), SqlValue::Int(doc_status), SqlValue::Int(id)]);
    }
    SqlQuery { sql: owned(UPDATE_STATUS), params }
}

/// Sets the header fields of sales order `id` while it is a draft.
pub fn update_order_query(id: i64, customer_id: i64, order_date: &str, total_amount: &str, currency: &str, notes: Option<&str>) -> (r: SqlQuery)
    ensures
        r@.sql == UPDATE_ORDER@,
        r@.params == seq![SqlValue::Int(customer_id), SqlValue::Text(order_date@), SqlValue::Text(total_amount@), SqlValue::Text(currency@), nullable_text(notes), SqlValue::Int(id)],
{
    let mut params: Vec<SqlParam> = Vec::new();
    params.push(SqlParam::Int(customer_id));
    params.push(SqlParam::Text(owned(order_date)));
    params.push(SqlParam::Text(owned(total_amount)));
    params.push(SqlParam::Text(owned(currency)));
    params.push(nullable_param(notes));
    params.push(SqlParam::Int(id));
    proof {
        assert(params_view(params@) =~= seq![SqlValue::Int(customer_id), SqlValue::Text(order_date@), SqlValue::Text(total_amount@), SqlValue::Text(currency@), nullable_text(notes), SqlValue::Int(id)]);
    }
    SqlQuery { sql: owned(UPDATE_ORDER), params }
}

/// Deletes every item line of sales order `order_id` (before they are written anew).
pub fn delete_items_for_order_query(order_id: i64) -> (r: SqlQuery)
    ensures
        r@.sql == DELETE_ITEMS_FOR_ORDER@,
        r@.params == seq![SqlValue::Int(order_id)],
{
    let mut params: Vec<SqlParam> = Vec::new();
    params.push(SqlParam::Int(order_id));
    proof {
        assert(params_view(params@) =~= seq![SqlValue::Int(order_id)]);
    }
    SqlQuery { sql: owned(DELETE_ITEMS_FOR_ORDER), params }
}

/// Soft-deletes sales order `id` while it is a draft.
pub fn soft_delete_order_query(id: i64) -> (r: SqlQuery)
    ensures
        r@.sql == SOFT_DELETE_ORDER@,
        r@.params == seq![SqlValue::Int(id)],
{
    let mut params: Vec<SqlParam> = Vec::new();
    params.push(SqlParam::Int(id));
    proof {
        assert(params_view(params@) =~= seq![SqlValue::Int(id)]);
    }
    SqlQuery { sql: owned(SOFT_DELETE_ORDER), params }
}

/// The active reservations of sales order `order_id`, by id.
pub fn list_active_reservations_for_order_query(order_id: i64) -> (r: SqlQuery)
    ensures
        r@.sql == LIST_ACTIVE_RESERVATIONS_FOR_ORDER@,
        r@.params == seq![SqlValue::Int(order_id)],
{
    let mut params: Vec<SqlParam> = Vec::new();
    params.push(SqlParam::Int(order_id));
    proof {
        assert(params_view(params@) =~= seq![SqlValue::Int(order_id)]);
    }
    SqlQuery { sql: owned(LIST_ACTIVE_RESERVATIONS_FOR_ORDER), params }
}

} // verus!
