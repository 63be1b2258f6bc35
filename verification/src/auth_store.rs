//! Accounts of the people who sign in: users, roles, permissions and refresh tokens, as the sign-in service reads and writes them.
use vstd::prelude::*;
use crate::query::{SqlParam, SqlQuery, SqlValue, nullable_param, nullable_text, params_view};
use crate::text::owned;

verus! {

/// Finds the live user named `username`.
pub const FIND_BY_USERNAME: &'static str = "SELECT id, username, display_name, password_hash, email, phone, is_active, created_at, deleted_at\n         FROM users WHERE username = ? AND deleted_at IS NULL";

/// Finds live user `id`.
pub const FIND_BY_ID: &'static str = "SELECT id, username, display_name, password_hash, email, phone, is_active, created_at, deleted_at\n         FROM users WHERE id = ? AND deleted_at IS NULL";

/// Creates a user with a user name, a display name and a password hash.
pub const CREATE_USER: &'static str = "INSERT INTO users (username, display_name, password_hash) VALUES (?, ?, ?)";

/// Soft-deletes user `id`.
pub const SOFT_DELETE_USER: &'static str = "UPDATE users SET deleted_at = datetime('now') WHERE id = ? AND deleted_at IS NULL";

/// Sets the display name, email, phone and active flag of live user `id`.
pub const UPDATE_USER: &'static str = "UPDATE users SET display_name = ?, email = ?, phone = ?, is_active = ?, updated_at = datetime('now')\n         WHERE id = ? AND deleted_at IS NULL";

/// Replaces user `id`'s password hash.
pub const UPDATE_PASSWORD_HASH: &'static str = "UPDATE users SET password_hash = ?, updated_at = datetime('now') WHERE id = ?";

/// All roles, by id.
pub const LIST_ROLES: &'static str = "SELECT id, name, description, is_system FROM roles ORDER BY id";

/// All permissions, by id.
pub const LIST_PERMISSIONS: &'static str = "SELECT id, key, name FROM permissions ORDER BY id";

/// The permission keys user `user_id` holds through the roles given to them, each once.
pub const LIST_PERMISSIONS_FOR_USER: &'static str = "SELECT DISTINCT p.key\n         FROM permissions p\n         JOIN role_permissions rp ON rp.permission_id = p.id\n         JOIN user_roles ur ON ur.role_id = rp.role_id\n         WHERE ur.user_id = ?";

/// Counts the grants of role `role_id` to user `user_id` (0 or 1).
pub const HAS_ROLE: &'static str = "SELECT COUNT(*) FROM user_roles WHERE user_id = ? AND role_id = ?";

/// Stores a refresh token of user `user_id` by hash, with its expiry.
pub const INSERT_REFRESH_TOKEN: &'static str = "INSERT INTO refresh_tokens (user_id, token_hash, expires_at) VALUES (?, ?, ?)";

/// The user of the refresh token with hash `token_hash`, when it is neither revoked nor expired.
pub const FIND_VALID_REFRESH_TOKEN: &'static str = "SELECT user_id FROM refresh_tokens\n         WHERE token_hash = ? AND revoked_at IS NULL AND expires_at > datetime('now')";

/// Finds the live user named `username`.
pub fn find_by_username_query(username: &str) -> (r: SqlQuery)
    ensures
        r@.sql == FIND_BY_USERNAME@,
        r@.params == seq![SqlValue::Text(username@)],
{
    let mut params: Vec<SqlParam> = Vec::new();
    params.push(SqlParam::Text(owned(username)));
    proof {
        assert(params_view(params@) =~= seq![SqlValue::Text(username@)]);
    }
    SqlQuery { sql: owned(FIND_BY_USERNAME), params }
}

/// Finds live user `id`.
pub fn find_by_id_query(id: i64) -> (r: SqlQuery)
    ensures
        r@.sql == FIND_BY_ID@,
        r@.params == seq![SqlValue::Int(id)],
{
    let mut params: Vec<SqlParam> = Vec::new();
    params.push(SqlParam::Int(id));
    proof {
        assert(params_view(params@) =~= seq![SqlValue::Int(id)]);
    }
    SqlQuery { sql: owned(FIND_BY_ID), params }
}

/// Creates a user with a user name, a display name and a password hash.
pub fn create_user_query(username: &str, password_hash: &str, display_name: &str) -> (r: SqlQuery)
    ensures
        r@.sql == CREATE_USER@,
        r@.params == seq![SqlValue::Text(username@), SqlValue::Text(display_name@), SqlValue::Text(password_hash@)],
{
    let mut params: Vec<SqlParam> = Vec::new();
    params.push(SqlParam::Text(owned(username)));
    params.push(SqlParam::Text(owned(display_name)));
    params.push(SqlParam::Text(owned(password_hash)));
    proof {
        assert(params_view(params@) =~= seq![SqlValue::Text(username@), SqlValue::Text(display_name@), SqlValue::Text(password_hash@)]);
    }
    SqlQuery { sql: owned(CREATE_USER), params }
}

/// Soft-deletes user `id`.
pub fn soft_delete_user_query(id: i64) -> (r: SqlQuery)
    ensures
        r@.sql == SOFT_DELETE_USER@,
        r@.params == seq![SqlValue::Int(id)],
{
    let mut params: Vec<SqlParam> = Vec::new();
    params.push(SqlParam::Int(id));
    proof {
        assert(params_view(params@) =~= seq![SqlValue::Int(id)]);
    }
    SqlQuery { sql: owned(SOFT_DELETE_USER), params }
}

/// Sets the display name, email, phone and active flag of live user `id`.
pub fn update_user_query(id: i64, display_name: &str, email: Option<&str>, phone: Option<&str>, is_active: bool) -> (r: SqlQuery)
    ensures
        r@.sql == UPDATE_USER@,
        r@.params == seq![SqlValue::Text(display_name@), nullable_text(email), nullable_text(phone), SqlValue::Int(if is_active { 1 } else { 0 }), SqlValue::Int(id)],
{
    let mut params: Vec<SqlParam> = Vec::new();
    params.push(SqlParam::Text(owned(display_name)));
    params.push(nullable_param(email));
    params.push(nullable_param(phone));
    params.push(SqlParam::Int(if is_active { 1 } else { 0 }));
    params.push(SqlParam::Int(id));
    proof {
        assert(params_view(params@) =~= seq![SqlValue::Text(display_name@), nullable_text(email), nullable_text(phone), SqlValue::Int(if is_active { 1 } else { 0 }), SqlValue::Int(id)]);
    }
    SqlQuery { sql: owned(UPDATE_USER), params }
}

/// Replaces user `id`'s password hash.
pub fn update_password_hash_query(id: i64, new_hash: &str) -> (r: SqlQuery)
    ensures
        r@.sql == UPDATE_PASSWORD_HASH@,
        r@.params == seq![SqlValue::Text(new_hash@), SqlValue::Int(id)],
{
    let mut params: Vec<SqlParam> = Vec::new();
    params.push(SqlParam::Text(owned(new_hash)));
    params.push(SqlParam::Int(id));
    proof {
        assert(params_view(params@) =~= seq![SqlValue::Text(new_hash@), SqlValue::Int(id)]);
    }
    SqlQuery { sql: owned(UPDATE_PASSWORD_HASH), params }
}

/// All roles, by id.
pub fn list_roles_query() -> (r: SqlQuery)
    ensures
        r@.sql == LIST_ROLES@,
        r@.params.len() == 0,
{
    let mut params: Vec<SqlParam> = Vec::new();
    SqlQuery { sql: owned(LIST_ROLES), params }
}

/// All permissions, by id.
pub fn list_permissions_query() -> (r: SqlQuery)
    ensures
        r@.sql == LIST_PERMISSIONS@,
        r@.params.len() == 0,
{
    let mut params: Vec<SqlParam> = Vec::new();
    SqlQuery { sql: owned(LIST_PERMISSIONS), params }
}

/// The permission keys user `user_id` holds through the roles given to them, each once.
pub fn list_permissions_for_user_query(user_id: i64) -> (r: SqlQuery)
    ensures
        r@.sql == LIST_PERMISSIONS_FOR_USER@,
        r@.params == seq![SqlValue::Int(user_id)],
{
    let mut params: Vec<SqlParam> = Vec::new();
    params.push(SqlParam::Int(user_id));
    proof {
        assert(params_view(params@) =~= seq![SqlValue::Int(user_id)]);
    }
    SqlQuery { sql: owned(LIST_PERMISSIONS_FOR_USER), params }
}

/// Counts the grants of role `role_id` to user `user_id` (0 or 1).
pub fn has_role_query(user_id: i64, role_id: i64) -> (r: SqlQuery)
    ensures
        r@.sql == HAS_ROLE@,
        r@.params == seq![SqlValue::Int(user_id), SqlValue::Int(role_id)],
{
    let mut params: Vec<SqlParam> = Vec::new();
    params.push(SqlParam::Int(user_id));
    params.push(SqlParam::Int(role_id));
    proof {
        assert(params_view(params@) =~= seq![SqlValue::Int(user_id), SqlValue::Int(role_id)]);
    }
    SqlQuery { sql: owned(HAS_ROLE), params }
}

/// Stores a refresh token of user `user_id` by hash, with its expiry.
pub fn insert_refresh_token_query(user_id: i64, token_hash: &str, expires_at: &str) -> (r: SqlQuery)
    ensures
        r@.sql == INSERT_REFRESH_TOKEN@,
        r@.params == seq![SqlValue::Int(user_id), SqlValue::Text(token_hash@), SqlValue::Text(expires_at@)],
{
    let mut params: Vec<SqlParam> = Vec::new();
    params.push(SqlParam::Int(user_id));
    params.push(SqlParam::Text(owned(token_hash)));
    params.push(SqlParam::Text(owned(expires_at)));
    proof {
        assert(params_view(params@) =~= seq![SqlValue::Int(user_id), SqlValue::Text(token_hash@), SqlValue::Text(expires_at@)]);
    }
    SqlQuery { sql: owned(INSERT_REFRESH_TOKEN), params }
}

/// The user of the refresh token with hash `token_hash`, when it is neither revoked nor expired.
pub fn find_valid_refresh_token_query(token_hash: &str) -> (r: SqlQuery)
    ensures
        r@.sql == FIND_VALID_REFRESH_TOKEN@,
        r@.params == seq![SqlValue::Text(token_hash@)],
{
    let mut params: Vec<SqlParam> = Vec::new();
    params.push(SqlParam::Text(owned(token_hash)));
    proof {
        assert(params_view(params@) =~= seq![SqlValue::Text(token_hash@)]);
    }
    SqlQuery { sql: owned(FIND_VALID_REFRESH_TOKEN), params }
}

} // verus!
