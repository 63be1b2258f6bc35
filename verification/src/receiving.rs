//! The stock documents that receiving and shipping create for an order.
use vstd::prelude::*;
use crate::query::{SqlParam, SqlQuery, SqlValue, params_view};
use crate::text::owned;

verus! {

/// Records, already posted, the purchase receipt `record_no` of order `order_id` from supplier `supplier_id`.
pub const INSERT_INBOUND: &'static str = "INSERT INTO inbound_records\n            (record_no, inbound_type, order_id, supplier_id, status, created_by)\n         VALUES (?, 'purchase', ?, ?, 'posted', ?)";

/// Records, already posted, the sales shipment `record_no` of order `order_id` to customer `customer_id`.
pub const INSERT_OUTBOUND: &'static str = "INSERT INTO outbound_records\n            (record_no, outbound_type, order_id, customer_id, status, created_by)\n         VALUES (?, 'sales', ?, ?, 'posted', ?)";

/// Records, already posted, the purchase receipt `record_no` of order `order_id` from supplier `supplier_id`.
pub fn insert_inbound_query(record_no: &str, order_id: i64, supplier_id: i64, created_by: i64) -> (r: SqlQuery)
    ensures
        r@.sql == INSERT_INBOUND@,
        r@.params == seq![SqlValue::Text(record_no@), SqlValue::Int(order_id), SqlValue::Int(supplier_id), SqlValue::Int(created_by)],
{
    let mut params: Vec<SqlParam> = Vec::new();
    params.push(SqlParam::Text(owned(record_no)));
    params.push(SqlParam::Int(order_id));
    params.push(SqlParam::Int(supplier_id));
    params.push(SqlParam::Int(created_by));
    proof {
        assert(params_view(params@) =~= seq![SqlValue::Text(record_no@), SqlValue::Int(order_id), SqlValue::Int(supplier_id), SqlValue::Int(created_by)]);
    }
    SqlQuery { sql: owned(INSERT_INBOUND), params }
}

/// Records, already posted, the sales shipment `record_no` of order `order_id` to customer `customer_id`.
pub fn insert_outbound_query(record_no: &str, order_id: i64, customer_id: i64, created_by: i64) -> (r: SqlQuery)
    ensures
        r@.sql == INSERT_OUTBOUND@,
        r@.params == seq![SqlValue::Text(record_no@), SqlValue::Int(order_id), SqlValue::Int(customer_id), SqlValue::Int(created_by)],
{
    let mut params: Vec<SqlParam> = Vec::new();
    params.push(SqlParam::Text(owned(record_no)));
    params.push(SqlParam::Int(order_id));
    params.push(SqlParam::Int(customer_id));
    params.push(SqlParam::Int(created_by));
    proof {
        assert(params_view(params@) =~= seq![SqlValue::Text(record_no@), SqlValue::Int(order_id), SqlValue::Int(customer_id), SqlValue::Int(created_by)]);
    }
    SqlQuery { sql: owned(INSERT_OUTBOUND), params }
}

} // verus!
