//! Warehouses and the locations inside them.
use vstd::prelude::*;
use crate::query::{SqlParam, SqlQuery, SqlValue, nullable_param, nullable_text, optional_int, optional_int_param, params_view};
use crate::text::owned;

verus! {

/// Finds live warehouse `id`.
pub const FIND_WAREHOUSE_BY_ID: &'static str = "SELECT id, code, name, address, created_at, updated_at, deleted_at\n         FROM warehouses WHERE id = ? AND deleted_at IS NULL";

/// Finds the live warehouse with code `code`.
pub const FIND_WAREHOUSE_BY_CODE: &'static str = "SELECT id, code, name, address, created_at, updated_at, deleted_at\n         FROM warehouses WHERE code = ? AND deleted_at IS NULL";

/// Creates a warehouse.
pub const CREATE_WAREHOUSE: &'static str = "INSERT INTO warehouses (code, name, address) VALUES (?, ?, ?)";

/// Sets code, name and address of live warehouse `id`.
pub const UPDATE_WAREHOUSE: &'static str = "UPDATE warehouses SET code = ?, name = ?, address = ?,\n         updated_at = datetime('now')\n         WHERE id = ? AND deleted_at IS NULL";

/// Soft-deletes warehouse `id`.
pub const SOFT_DELETE_WAREHOUSE: &'static str = "UPDATE warehouses SET deleted_at = datetime('now')\n         WHERE id = ? AND deleted_at IS NULL";

/// Finds live location `id`.
pub const FIND_LOCATION_BY_ID: &'static str = "SELECT id, warehouse_id, code, name, created_at, updated_at, deleted_at\n         FROM locations WHERE id = ? AND deleted_at IS NULL";

/// Finds the live location with code `code` in warehouse `warehouse_id` (among the locations of no warehouse when it is absent): the uniqueness check of a location code.
pub const FIND_LOCATION_BY_CODE_WITHIN_WAREHOUSE: &'static str = "SELECT id, warehouse_id, code, name, created_at, updated_at, deleted_at\n         FROM locations\n         WHERE code = ? AND deleted_at IS NULL\n           AND (warehouse_id IS ? OR warehouse_id = ?)";

/// Creates a location, in a warehouse or in none.
pub const CREATE_LOCATION: &'static str = "INSERT INTO locations (warehouse_id, code, name) VALUES (?, ?, ?)";

/// Sets warehouse, code and name of live location `id`.
pub const UPDATE_LOCATION: &'static str = "UPDATE locations SET warehouse_id = ?, code = ?, name = ?,\n         updated_at = datetime('now')\n         WHERE id = ? AND deleted_at IS NULL";

/// Soft-deletes location `id`.
pub const SOFT_DELETE_LOCATION: &'static str = "UPDATE locations SET deleted_at = datetime('now')\n         WHERE id = ? AND deleted_at IS NULL";

/// Finds live warehouse `id`.
pub fn find_warehouse_by_id_query(id: i64) -> (r: SqlQuery)
    ensures
        r@.sql == FIND_WAREHOUSE_BY_ID@,
        r@.params == seq![SqlValue::Int(id)],
{
    let mut params: Vec<SqlParam> = Vec::new();
    params.push(SqlParam::Int(id));
    proof {
        assert(params_view(params@) =~= seq![SqlValue::Int(id)]);
    }
    SqlQuery { sql: owned(FIND_WAREHOUSE_BY_ID), params }
}

/// Finds the live warehouse with code `code`.
pub fn find_warehouse_by_code_query(code: &str) -> (r: SqlQuery)
    ensures
        r@.sql == FIND_WAREHOUSE_BY_CODE@,
        r@.params == seq![SqlValue::Text(code@)],
{
    let mut params: Vec<SqlParam> = Vec::new();
    params.push(SqlParam::Text(owned(code)));
    proof {
        assert(params_view(params@) =~= seq![SqlValue::Text(code@)]);
    }
    SqlQuery { sql: owned(FIND_WAREHOUSE_BY_CODE), params }
}

/// Creates a warehouse.
pub fn create_warehouse_query(code: &str, name: &str, address: Option<&str>) -> (r: SqlQuery)
    ensures
        r@.sql == CREATE_WAREHOUSE@,
        r@.params == seq![SqlValue::Text(code@), SqlValue::Text(name@), nullable_text(address)],
{
    let mut params: Vec<SqlParam> = Vec::new();
    params.push(SqlParam::Text(owned(code)));
    params.push(SqlParam::Text(owned(name)));
    params.push(nullable_param(address));
    proof {
        assert(params_view(params@) =~= seq![SqlValue::Text(code@), SqlValue::Text(name@), nullable_text(address)]);
    }
    SqlQuery { sql: owned(CREATE_WAREHOUSE), params }
}

/// Sets code, name and address of live warehouse `id`.
pub fn update_warehouse_query(id: i64, code: &str, name: &str, address: Option<&str>) -> (r: SqlQuery)
    ensures
        r@.sql == UPDATE_WAREHOUSE@,
        r@.params == seq![SqlValue::Text(code@), SqlValue::Text(name@), nullable_text(address), SqlValue::Int(id)],
{
    let mut params: Vec<SqlParam> = Vec::new();
    params.push(SqlParam::Text(owned(code)));
    params.push(SqlParam::Text(owned(name)));
    params.push(nullable_param(address));
    params.push(SqlParam::Int(id));
    proof {
        assert(params_view(params@) =~= seq![SqlValue::Text(code@), SqlValue::Text(name@), nullable_text(address), SqlValue::Int(id)]);
    }
    SqlQuery { sql: owned(UPDATE_WAREHOUSE), params }
}

/// Soft-deletes warehouse `id`.
pub fn soft_delete_warehouse_query(id: i64) -> (r: SqlQuery)
    ensures
        r@.sql == SOFT_DELETE_WAREHOUSE@,
        r@.params == seq![SqlValue::Int(id)],
{
    let mut params: Vec<SqlParam> = Vec::new();
    params.push(SqlParam::Int(id));
    proof {
        assert(params_view(params@) =~= seq![SqlValue::Int(id)]);
    }
    SqlQuery { sql: owned(SOFT_DELETE_WAREHOUSE), params }
}

/// Finds live location `id`.
pub fn find_location_by_id_query(id: i64) -> (r: SqlQuery)
    ensures
        r@.sql == FIND_LOCATION_BY_ID@,
        r@.params == seq![SqlValue::Int(id)],
{
    let mut params: Vec<SqlParam> = Vec::new();
    params.push(SqlParam::Int(id));
    proof {
        assert(params_view(params@) =~= seq![SqlValue::Int(id)]);
    }
    SqlQuery { sql: owned(FIND_LOCATION_BY_ID), params }
}

/// Finds the live location with code `code` in warehouse `warehouse_id` (among the locations of no warehouse when it is absent): the uniqueness check of a location code.
pub fn find_location_by_code_within_warehouse_query(warehouse_id: Option<i64>, code: &str) -> (r: SqlQuery)
    ensures
        r@.sql == FIND_LOCATION_BY_CODE_WITHIN_WAREHOUSE@,
        r@.params == seq![SqlValue::Text(code@), optional_int(warehouse_id), optional_int(warehouse_id)],
{
    let mut params: Vec<SqlParam> = Vec::new();
    params.push(SqlParam::Text(owned(code)));
    params.push(optional_int_param(warehouse_id));
    params.push(optional_int_param(warehouse_id));
    proof {
        assert(params_view(params@) =~= seq![SqlValue::Text(code@), optional_int(warehouse_id), optional_int(warehouse_id)]);
    }
    SqlQuery { sql: owned(FIND_LOCATION_BY_CODE_WITHIN_WAREHOUSE), params }
}

/// Creates a location, in a warehouse or in none.
pub fn create_location_query(warehouse_id: Option<i64>, code: &str, name: &str) -> (r: SqlQuery)
    ensures
        r@.sql == CREATE_LOCATION@,
        r@.params == seq![optional_int(warehouse_id), SqlValue::Text(code@), SqlValue::Text(name@)],
{
    let mut params: Vec<SqlParam> = Vec::new();
    params.push(optional_int_param(warehouse_id));
    params.push(SqlParam::Text(owned(code)));
    params.push(SqlParam::Text(owned(name)));
    proof {
        assert(params_view(params@) =~= seq![optional_int(warehouse_id), SqlValue::Text(code@), SqlValue::Text(name@)]);
    }
    SqlQuery { sql: owned(CREATE_LOCATION), params }
}

/// Sets warehouse, code and name of live location `id`.
pub fn update_location_query(id: i64, warehouse_id: Option<i64>, code: &str, name: &str) -> (r: SqlQuery)
    ensures
        r@.sql == UPDATE_LOCATION@,
        r@.params == seq![optional_int(warehouse_id), SqlValue::Text(code@), SqlValue::Text(name@), SqlValue::Int(id)],
{
    let mut params: Vec<SqlParam> = Vec::new();
    params.push(optional_int_param(warehouse_id));
    params.push(SqlParam::Text(owned(code)));
    params.push(SqlParam::Text(owned(name)));
    params.push(SqlParam::Int(id));
    proof {
        assert(params_view(params@) =~= seq![optional_int(warehouse_id), SqlValue::Text(code@), SqlValue::Text(name@), SqlValue::Int(id)]);
    }
    SqlQuery { sql: owned(UPDATE_LOCATION), params }
}

/// Soft-deletes location `id`.
pub fn soft_delete_location_query(id: i64) -> (r: SqlQuery)
    ensures
        r@.sql == SOFT_DELETE_LOCATION@,
        r@.params == seq![SqlValue::Int(id)],
{
    let mut params: Vec<SqlParam> = Vec::new();
    params.push(SqlParam::Int(id));
    proof {
        assert(params_view(params@) =~= seq![SqlValue::Int(id)]);
    }
    SqlQuery { sql: owned(SOFT_DELETE_LOCATION), params }
}

} // verus!
