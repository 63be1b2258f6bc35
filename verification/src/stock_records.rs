//! Item stock: balances per location and the inbound and outbound orders that move them.
use vstd::prelude::*;
use crate::money::{Amount, amount_text, amount_wf, decimal_text};
use crate::query::{SqlParam, SqlQuery, SqlValue, nullable_param, nullable_text, optional_int, optional_int_param, params_view};
use crate::text::owned;

verus! {

/// The balance row of item `item_id` at location `location_id`.
pub const GET_INVENTORY: &'static str = "SELECT id, item_id, location_id, quantity, created_at, updated_at\n         FROM inventory WHERE item_id = ? AND location_id = ?";

/// The stored balances of item `item_id` at every location, as decimal text; `money::sum_amount_texts` adds them.
pub const GET_BALANCE_FOR_ITEM: &'static str = "SELECT quantity FROM inventory WHERE item_id = ?";

/// Creates an inbound order in status `draft`.
pub const CREATE_INBOUND_ORDER: &'static str = "INSERT INTO inbound_records\n            (record_no, inbound_type, order_id, supplier_id, status, notes, created_by)\n         VALUES (?, ?, ?, ?, 'draft', ?, ?)";

/// Finds live inbound order `id`.
pub const GET_INBOUND_ORDER_BY_ID: &'static str = "SELECT id, record_no, inbound_type, order_id, supplier_id, status, notes,\n                created_by, created_at, updated_at, deleted_at\n         FROM inbound_records WHERE id = ? AND deleted_at IS NULL";

/// The lines of inbound order `record_id`, in order.
pub const LIST_INBOUND_ITEMS_FOR_ORDER: &'static str = "SELECT id, record_id, item_id, location_id, quantity, notes, created_at\n         FROM inbound_items WHERE record_id = ? ORDER BY id";

/// Sets the status of live inbound order `id`.
pub const UPDATE_INBOUND_STATUS: &'static str = "UPDATE inbound_records SET status = ?, updated_at = datetime('now')\n         WHERE id = ? AND deleted_at IS NULL";

/// Creates an outbound order in status `draft`.
pub const CREATE_OUTBOUND_ORDER: &'static str = "INSERT INTO outbound_records\n            (record_no, outbound_type, order_id, customer_id, status, notes, created_by)\n         VALUES (?, ?, ?, ?, 'draft', ?, ?)";

/// Finds live outbound order `id`.
pub const GET_OUTBOUND_ORDER_BY_ID: &'static str = "SELECT id, record_no, outbound_type, order_id, customer_id, status, notes,\n                created_by, created_at, updated_at, deleted_at\n         FROM outbound_records WHERE id = ? AND deleted_at IS NULL";

/// The lines of outbound order `record_id`, in order.
pub const LIST_OUTBOUND_ITEMS_FOR_ORDER: &'static str = "SELECT id, record_id, item_id, location_id, quantity, notes, created_at\n         FROM outbound_items WHERE record_id = ? ORDER BY id";

/// Sets the status of live outbound order `id`.
pub const UPDATE_OUTBOUND_STATUS: &'static str = "UPDATE outbound_records SET status = ?, updated_at = datetime('now')\n         WHERE id = ? AND deleted_at IS NULL";

/// The balance row of item `item_id` at location `location_id`.
pub fn get_inventory_query(item_id: i64, location_id: i64) -> (r: SqlQuery)
    ensures
        r@.sql == GET_INVENTORY@,
        r@.params == seq![SqlValue::Int(item_id), SqlValue::Int(location_id)],
{
    let mut params: Vec<SqlParam> = Vec::new();
    params.push(SqlParam::Int(item_id));
    params.push(SqlParam::Int(location_id));
    proof {
        assert(params_view(params@) =~= seq![SqlValue::Int(item_id), SqlValue::Int(location_id)]);
    }
    SqlQuery { sql: owned(GET_INVENTORY), params }
}

/// The stored balances of item `item_id` at every location, as decimal text; `money::sum_amount_texts` adds them.
pub fn get_balance_for_item_query(item_id: i64) -> (r: SqlQuery)
    ensures
        r@.sql == GET_BALANCE_FOR_ITEM@,
        r@.params == seq![SqlValue::Int(item_id)],
{
    let mut params: Vec<SqlParam> = Vec::new();
    params.push(SqlParam::Int(item_id));
    proof {
        assert(params_view(params@) =~= seq![SqlValue::Int(item_id)]);
    }
    SqlQuery { sql: owned(GET_BALANCE_FOR_ITEM), params }
}

/// Creates an inbound order in status `draft`.
pub fn create_inbound_order_query(record_no: &str, inbound_type: &str, order_id: Option<i64>, supplier_id: Option<i64>, created_by: Option<i64>, notes: Option<&str>) -> (r: SqlQuery)
    ensures
        r@.sql == CREATE_INBOUND_ORDER@,
        r@.params == seq![SqlValue::Text(record_no@), SqlValue::Text(inbound_type@), optional_int(order_id), optional_int(supplier_id), nullable_text(notes), optional_int(created_by)],
{
    let mut params: Vec<SqlParam> = Vec::new();
    params.push(SqlParam::Text(owned(record_no)));
    params.push(SqlParam::Text(owned(inbound_type)));
    params.push(optional_int_param(order_id));
    params.push(optional_int_param(supplier_id));
    params.push(nullable_param(notes));
    params.push(optional_int_param(created_by));
    proof {
        assert(params_view(params@) =~= seq![SqlValue::Text(record_no@), SqlValue::Text(inbound_type@), optional_int(order_id), optional_int(supplier_id), nullable_text(notes), optional_int(created_by)]);
    }
    SqlQuery { sql: owned(CREATE_INBOUND_ORDER), params }
}

/// Finds live inbound order `id`.
pub fn get_inbound_order_by_id_query(id: i64) -> (r: SqlQuery)
    ensures
        r@.sql == GET_INBOUND_ORDER_BY_ID@,
        r@.params == seq![SqlValue::Int(id)],
{
    let mut params: Vec<SqlParam> = Vec::new();
    params.push(SqlParam::Int(id));
    proof {
        assert(params_view(params@) =~= seq![SqlValue::Int(id)]);
    }
    SqlQuery { sql: owned(GET_INBOUND_ORDER_BY_ID), params }
}

/// The lines of inbound order `record_id`, in order.
pub fn list_inbound_items_for_order_query(record_id: i64) -> (r: SqlQuery)
    ensures
        r@.sql == LIST_INBOUND_ITEMS_FOR_ORDER@,
        r@.params == seq![SqlValue::Int(record_id)],
{
    let mut params: Vec<SqlParam> = Vec::new();
    params.push(SqlParam::Int(record_id));
    proof {
        assert(params_view(params@) =~= seq![SqlValue::Int(record_id)]);
    }
    SqlQuery { sql: owned(LIST_INBOUND_ITEMS_FOR_ORDER), params }
}

/// Sets the status of live inbound order `id`.
pub fn update_inbound_status_query(id: i64, status: &str) -> (r: SqlQuery)
    ensures
        r@.sql == UPDATE_INBOUND_STATUS@,
        r@.params == seq![SqlValue::Text(status@), SqlValue::Int(id)],
{
    let mut params: Vec<SqlParam> = Vec::new();
    params.push(SqlParam::Text(owned(status)));
    params.push(SqlParam::Int(id));
    proof {
        assert(params_view(params@) =~= seq![SqlValue::Text(status@), SqlValue::Int(id)]);
    }
    SqlQuery { sql: owned(UPDATE_INBOUND_STATUS), params }
}

/// Creates an outbound order in status `draft`.
pub fn create_outbound_order_query(record_no: &str, outbound_type: &str, order_id: Option<i64>, customer_id: Option<i64>, created_by: Option<i64>, notes: Option<&str>) -> (r: SqlQuery)
    ensures
        r@.sql == CREATE_OUTBOUND_ORDER@,
        r@.params == seq![SqlValue::Text(record_no@), SqlValue::Text(outbound_type@), optional_int(order_id), optional_int(customer_id), nullable_text(notes), optional_int(created_by)],
{
    let mut params: Vec<SqlParam> = Vec::new();
    params.push(SqlParam::Text(owned(record_no)));
    params.push(SqlParam::Text(owned(outbound_type)));
    params.push(optional_int_param(order_id));
    params.push(optional_int_param(customer_id));
    params.push(nullable_param(notes));
    params.push(optional_int_param(created_by));
    proof {
        assert(params_view(params@) =~= seq![SqlValue::Text(record_no@), SqlValue::Text(outbound_type@), optional_int(order_id), optional_int(customer_id), nullable_text(notes), optional_int(created_by)]);
    }
    SqlQuery { sql: owned(CREATE_OUTBOUND_ORDER), params }
}

/// Finds live outbound order `id`.
pub fn get_outbound_order_by_id_query(id: i64) -> (r: SqlQuery)
    ensures
        r@.sql == GET_OUTBOUND_ORDER_BY_ID@,
        r@.params == seq![SqlValue::Int(id)],
{
    let mut params: Vec<SqlParam> = Vec::new();
    params.push(SqlParam::Int(id));
    proof {
        assert(params_view(params@) =~= seq![SqlValue::Int(id)]);
    }
    SqlQuery { sql: owned(GET_OUTBOUND_ORDER_BY_ID), params }
}

/// The lines of outbound order `record_id`, in order.
pub fn list_outbound_items_for_order_query(record_id: i64) -> (r: SqlQuery)
    ensures
        r@.sql == LIST_OUTBOUND_ITEMS_FOR_ORDER@,
        r@.params == seq![SqlValue::Int(record_id)],
{
    let mut params: Vec<SqlParam> = Vec::new();
    params.push(SqlParam::Int(record_id));
    proof {
        assert(params_view(params@) =~= seq![SqlValue::Int(record_id)]);
    }
    SqlQuery { sql: owned(LIST_OUTBOUND_ITEMS_FOR_ORDER), params }
}

/// Sets the status of live outbound order `id`.
pub fn update_outbound_status_query(id: i64, status: &str) -> (r: SqlQuery)
    ensures
        r@.sql == UPDATE_OUTBOUND_STATUS@,
        r@.params == seq![SqlValue::Text(status@), SqlValue::Int(id)],
{
    let mut params: Vec<SqlParam> = Vec::new();
    params.push(SqlParam::Text(owned(status)));
    params.push(SqlParam::Int(id));
    proof {
        assert(params_view(params@) =~= seq![SqlValue::Text(status@), SqlValue::Int(id)]);
    }
    SqlQuery { sql: owned(UPDATE_OUTBOUND_STATUS), params }
}

/// Records a movement of `quantity` of item `item_id`; the quantity is stored as its canonical decimal text.
pub const INSERT_LOG: &'static str = "INSERT INTO inventory_logs\n            (item_id, location_id, change_type, quantity, ref_type, ref_id, notes, created_by)\n         VALUES (?, ?, ?, ?, ?, ?, ?, ?)";

/// Adds a line of `quantity` of item `item_id` to inbound order `record_id`; the quantity is stored as its canonical decimal text.
pub const INSERT_INBOUND_ITEM: &'static str = "INSERT INTO inbound_items (record_id, item_id, location_id, quantity, notes)\n         VALUES (?, ?, ?, ?, ?)";

/// Adds a line of `quantity` of item `item_id` to outbound order `record_id`; the quantity is stored as its canonical decimal text.
pub const INSERT_OUTBOUND_ITEM: &'static str = "INSERT INTO outbound_items (record_id, item_id, location_id, quantity, notes)\n         VALUES (?, ?, ?, ?, ?)";

/// Records a movement of `quantity` of item `item_id`; the quantity is stored as its canonical decimal text.
pub fn insert_log_query(item_id: i64, location_id: Option<i64>, change_type: &str, quantity: Amount, ref_type: Option<&str>, ref_id: Option<i64>, notes: Option<&str>, created_by: Option<i64>) -> (r: SqlQuery)
    requires
        amount_wf(quantity),
    ensures
        r@.sql == INSERT_LOG@,
        r@.params == seq![SqlValue::Int(item_id), optional_int(location_id), SqlValue::Text(change_type@), SqlValue::Text(amount_text(quantity)), nullable_text(ref_type), optional_int(ref_id), nullable_text(notes), optional_int(created_by)],
{
    let mut params: Vec<SqlParam> = Vec::new();
    params.push(SqlParam::Int(item_id));
    params.push(optional_int_param(location_id));
    params.push(SqlParam::Text(owned(change_type)));
    params.push(SqlParam::Text(decimal_text(quantity)));
    params.push(nullable_param(ref_type));
    params.push(optional_int_param(ref_id));
    params.push(nullable_param(notes));
    params.push(optional_int_param(created_by));
    proof {
        assert(params_view(params@) =~= seq![SqlValue::Int(item_id), optional_int(location_id), SqlValue::Text(change_type@), SqlValue::Text(amount_text(quantity)), nullable_text(ref_type), optional_int(ref_id), nullable_text(notes), optional_int(created_by)]);
    }
    SqlQuery { sql: owned(INSERT_LOG), params }
}

/// Adds a line of `quantity` of item `item_id` to inbound order `record_id`; the quantity is stored as its canonical decimal text.
pub fn insert_inbound_item_query(record_id: i64, item_id: i64, location_id: Option<i64>, quantity: Amount, notes: Option<&str>) -> (r: SqlQuery)
    requires
        amount_wf(quantity),
    ensures
        r@.sql == INSERT_INBOUND_ITEM@,
        r@.params == seq![SqlValue::Int(record_id), SqlValue::Int(item_id), optional_int(location_id), SqlValue::Text(amount_text(quantity)), nullable_text(notes)],
{
    let mut params: Vec<SqlParam> = Vec::new();
    params.push(SqlParam::Int(record_id));
    params.push(SqlParam::Int(item_id));
    params.push(optional_int_param(location_id));
    params.push(SqlParam::Text(decimal_text(quantity)));
    params.push(nullable_param(notes));
    proof {
        assert(params_view(params@) =~= seq![SqlValue::Int(record_id), SqlValue::Int(item_id), optional_int(location_id), SqlValue::Text(amount_text(quantity)), nullable_text(notes)]);
    }
    SqlQuery { sql: owned(INSERT_INBOUND_ITEM), params }
}

/// Adds a line of `quantity` of item `item_id` to outbound order `record_id`; the quantity is stored as its canonical decimal text.
pub fn insert_outbound_item_query(record_id: i64, item_id: i64, location_id: Option<i64>, quantity: Amount, notes: Option<&str>) -> (r: SqlQuery)
    requires
        amount_wf(quantity),
    ensures
        r@.sql == INSERT_OUTBOUND_ITEM@,
        r@.params == seq![SqlValue::Int(record_id), SqlValue::Int(item_id), optional_int(location_id), SqlValue::Text(amount_text(quantity)), nullable_text(notes)],
{
    let mut params: Vec<SqlParam> = Vec::new();
    params.push(SqlParam::Int(record_id));
    params.push(SqlParam::Int(item_id));
    params.push(optional_int_param(location_id));
    params.push(SqlParam::Text(decimal_text(quantity)));
    params.push(nullable_param(notes));
    proof {
        assert(params_view(params@) =~= seq![SqlValue::Int(record_id), SqlValue::Int(item_id), optional_int(location_id), SqlValue::Text(amount_text(quantity)), nullable_text(notes)]);
    }
    SqlQuery { sql: owned(INSERT_OUTBOUND_ITEM), params }
}

} // verus!
