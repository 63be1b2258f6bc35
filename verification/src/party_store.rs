//! Suppliers and customers by code.
use vstd::prelude::*;
use crate::query::{SqlParam, SqlQuery, SqlValue, nullable_param, nullable_text, params_view};
use crate::text::owned;

verus! {

/// Finds live supplier `id`.
pub const FIND_SUPPLIER_BY_ID: &'static str = "SELECT id, code, name, contact, phone, email, address, status,\n                created_at, updated_at, deleted_at\n         FROM suppliers WHERE id = ? AND deleted_at IS NULL";

/// Finds the live supplier with code `code`.
pub const FIND_SUPPLIER_BY_CODE: &'static str = "SELECT id, code, name, contact, phone, email, address, status,\n                created_at, updated_at, deleted_at\n         FROM suppliers WHERE code = ? AND deleted_at IS NULL";

/// Creates a supplier in status `active`.
pub const CREATE_SUPPLIER: &'static str = "INSERT INTO suppliers (code, name, contact, phone, email, address, status)\n         VALUES (?, ?, ?, ?, ?, ?, 'active')";

/// Sets every field of live supplier `id`.
pub const UPDATE_SUPPLIER: &'static str = "UPDATE suppliers SET code = ?, name = ?, contact = ?, phone = ?, email = ?,\n           address = ?, status = ?, updated_at = datetime('now')\n         WHERE id = ? AND deleted_at IS NULL";

/// Soft-deletes supplier `id`.
pub const SOFT_DELETE_SUPPLIER: &'static str = "UPDATE suppliers SET deleted_at = datetime('now')\n         WHERE id = ? AND deleted_at IS NULL";

/// Finds live customer `id`.
pub const FIND_CUSTOMER_BY_ID: &'static str = "SELECT id, code, name, contact, phone, email, address, status,\n                created_at, updated_at, deleted_at\n         FROM customers WHERE id = ? AND deleted_at IS NULL";

/// Finds the live customer with code `code`.
pub const FIND_CUSTOMER_BY_CODE: &'static str = "SELECT id, code, name, contact, phone, email, address, status,\n                created_at, updated_at, deleted_at\n         FROM customers WHERE code = ? AND deleted_at IS NULL";

/// Creates a customer in status `active`.
pub const CREATE_CUSTOMER: &'static str = "INSERT INTO customers (code, name, contact, phone, email, address, status)\n         VALUES (?, ?, ?, ?, ?, ?, 'active')";

/// Sets every field of live customer `id`.
pub const UPDATE_CUSTOMER: &'static str = "UPDATE customers SET code = ?, name = ?, contact = ?, phone = ?, email = ?,\n           address = ?, status = ?, updated_at = datetime('now')\n         WHERE id = ? AND deleted_at IS NULL";

/// Soft-deletes customer `id`.
pub const SOFT_DELETE_CUSTOMER: &'static str = "UPDATE customers SET deleted_at = datetime('now')\n         WHERE id = ? AND deleted_at IS NULL";

/// Finds live supplier `id`.
pub fn find_supplier_by_id_query(id: i64) -> (r: SqlQuery)
    ensures
        r@.sql == FIND_SUPPLIER_BY_ID@,
        r@.params == seq![SqlValue::Int(id)],
{
    let mut params: Vec<SqlParam> = Vec::new();
    params.push(SqlParam::Int(id));
    proof {
        assert(params_view(params@) =~= seq![SqlValue::Int(id)]);
    }
    SqlQuery { sql: owned(FIND_SUPPLIER_BY_ID), params }
}

/// Finds the live supplier with code `code`.
pub fn find_supplier_by_code_query(code: &str) -> (r: SqlQuery)
    ensures
        r@.sql == FIND_SUPPLIER_BY_CODE@,
        r@.params == seq![SqlValue::Text(code@)],
{
    let mut params: Vec<SqlParam> = Vec::new();
    params.push(SqlParam::Text(owned(code)));
    proof {
        assert(params_view(params@) =~= seq![SqlValue::Text(code@)]);
    }
    SqlQuery { sql: owned(FIND_SUPPLIER_BY_CODE), params }
}

/// Creates a supplier in status `active`.
pub fn create_supplier_query(code: &str, name: &str, contact: Option<&str>, phone: Option<&str>, email: Option<&str>, address: Option<&str>) -> (r: SqlQuery)
    ensures
        r@.sql == CREATE_SUPPLIER@,
        r@.params == seq![SqlValue::Text(code@), SqlValue::Text(name@), nullable_text(contact), nullable_text(phone), nullable_text(email), nullable_text(address)],
{
    let mut params: Vec<SqlParam> = Vec::new();
    params.push(SqlParam::Text(owned(code)));
    params.push(SqlParam::Text(owned(name)));
    params.push(nullable_param(contact));
    params.push(nullable_param(phone));
    params.push(nullable_param(email));
    params.push(nullable_param(address));
    proof {
        assert(params_view(params@) =~= seq![SqlValue::Text(code@), SqlValue::Text(name@), nullable_text(contact), nullable_text(phone), nullable_text(email), nullable_text(address)]);
    }
    SqlQuery { sql: owned(CREATE_SUPPLIER), params }
}

/// Sets every field of live supplier `id`.
pub fn update_supplier_query(id: i64, code: &str, name: &str, contact: Option<&str>, phone: Option<&str>, email: Option<&str>, address: Option<&str>, status: &str) -> (r: SqlQuery)
    ensures
        r@.sql == UPDATE_SUPPLIER@,
        r@.params == seq![SqlValue::Text(code@), SqlValue::Text(name@), nullable_text(contact), nullable_text(phone), nullable_text(email), nullable_text(address), SqlValue::Text(status@), SqlValue::Int(id)],
{
    let mut params: Vec<SqlParam> = Vec::new();
    params.push(SqlParam::Text(owned(code)));
    params.push(SqlParam::Text(owned(name)));
    params.push(nullable_param(contact));
    params.push(nullable_param(phone));
    params.push(nullable_param(email));
    params.push(nullable_param(address));
    params.push(SqlParam::Text(owned(status)));
    params.push(SqlParam::Int(id));
    proof {
        assert(params_view(params@) =~= seq![SqlValue::Text(code@), SqlValue::Text(name@), nullable_text(contact), nullable_text(phone), nullable_text(email), nullable_text(address), SqlValue::Text(status@), SqlValue::Int(id)]);
    }
    SqlQuery { sql: owned(UPDATE_SUPPLIER), params }
}

/// Soft-deletes supplier `id`.
pub fn soft_delete_supplier_query(id: i64) -> (r: SqlQuery)
    ensures
        r@.sql == SOFT_DELETE_SUPPLIER@,
        r@.params == seq![SqlValue::Int(id)],
{
    let mut params: Vec<SqlParam> = Vec::new();
    params.push(SqlParam::Int(id));
    proof {
        assert(params_view(params@) =~= seq![SqlValue::Int(id)]);
    }
    SqlQuery { sql: owned(SOFT_DELETE_SUPPLIER), params }
}

/// Finds live customer `id`.
pub fn find_customer_by_id_query(id: i64) -> (r: SqlQuery)
    ensures
        r@.sql == FIND_CUSTOMER_BY_ID@,
        r@.params == seq![SqlValue::Int(id)],
{
    let mut params: Vec<SqlParam> = Vec::new();
    params.push(SqlParam::Int(id));
    proof {
        assert(params_view(params@) =~= seq![SqlValue::Int(id)]);
    }
    SqlQuery { sql: owned(FIND_CUSTOMER_BY_ID), params }
}

/// Finds the live customer with code `code`.
pub fn find_customer_by_code_query(code: &str) -> (r: SqlQuery)
    ensures
        r@.sql == FIND_CUSTOMER_BY_CODE@,
        r@.params == seq![SqlValue::Text(code@)],
{
    let mut params: Vec<SqlParam> = Vec::new();
    params.push(SqlParam::Text(owned(code)));
    proof {
        assert(params_view(params@) =~= seq![SqlValue::Text(code@)]);
    }
    SqlQuery { sql: owned(FIND_CUSTOMER_BY_CODE), params }
}

/// Creates a customer in status `active`.
pub fn create_customer_query(code: &str, name: &str, contact: Option<&str>, phone: Option<&str>, email: Option<&str>, address: Option<&str>) -> (r: SqlQuery)
    ensures
        r@.sql == CREATE_CUSTOMER@,
        r@.params == seq![SqlValue::Text(code@), SqlValue::Text(name@), nullable_text(contact), nullable_text(phone), nullable_text(email), nullable_text(address)],
{
    let mut params: Vec<SqlParam> = Vec::new();
    params.push(SqlParam::Text(owned(code)));
    params.push(SqlParam::Text(owned(name)));
    params.push(nullable_param(contact));
    params.push(nullable_param(phone));
    params.push(nullable_param(email));
    params.push(nullable_param(address));
    proof {
        assert(params_view(params@) =~= seq![SqlValue::Text(code@), SqlValue::Text(name@), nullable_text(contact), nullable_text(phone), nullable_text(email), nullable_text(address)]);
    }
    SqlQuery { sql: owned(CREATE_CUSTOMER), params }
}

/// Sets every field of live customer `id`.
pub fn update_customer_query(id: i64, code: &str, name: &str, contact: Option<&str>, phone: Option<&str>, email: Option<&str>, address: Option<&str>, status: &str) -> (r: SqlQuery)
    ensures
        r@.sql == UPDATE_CUSTOMER@,
        r@.params == seq![SqlValue::Text(code@), SqlValue::Text(name@), nullable_text(contact), nullable_text(phone), nullable_text(email), nullable_text(address), SqlValue::Text(status@), SqlValue::Int(id)],
{
    let mut params: Vec<SqlParam> = Vec::new();
    params.push(SqlParam::Text(owned(code)));
    params.push(SqlParam::Text(owned(name)));
    params.push(nullable_param(contact));
    params.push(nullable_param(phone));
    params.push(nullable_param(email));
    params.push(nullable_param(address));
    params.push(SqlParam::Text(owned(status)));
    params.push(SqlParam::Int(id));
    proof {
        assert(params_view(params@) =~= seq![SqlValue::Text(code@), SqlValue::Text(name@), nullable_text(contact), nullable_text(phone), nullable_text(email), nullable_text(address), SqlValue::Text(status@), SqlValue::Int(id)]);
    }
    SqlQuery { sql: owned(UPDATE_CUSTOMER), params }
}

/// Soft-deletes customer `id`.
pub fn soft_delete_customer_query(id: i64) -> (r: SqlQuery)
    ensures
        r@.sql == SOFT_DELETE_CUSTOMER@,
        r@.params == seq![SqlValue::Int(id)],
{
    let mut params: Vec<SqlParam> = Vec::new();
    params.push(SqlParam::Int(id));
    proof {
        assert(params_view(params@) =~= seq![SqlValue::Int(id)]);
    }
    SqlQuery { sql: owned(SOFT_DELETE_CUSTOMER), params }
}

} // verus!
