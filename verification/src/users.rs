//! Users, roles, permissions and the account audit rows: the user list, the user
//! update, the replacement of a user's roles and the record of an operation.
use vstd::prelude::*;
use crate::query::nullable_text;
use crate::query::nullable_param;
use crate::listing::push_numbered_value;
use crate::numbering::{int_text, push_i64};
use crate::query::{clause_if, copy_params, params_view, string_param, ListQuery, SqlParam, SqlQuery, SqlValue};
use crate::text::{append_joined_strings, join_with, like_contains, owned, strings_view};

verus! {

/// Users (`users`).
pub struct UserRepo;

/// One user account.
pub struct UserRow {
    pub id: i64,
    pub username: String,
    pub display_name: String,
    pub password_hash: String,
    pub email: Option<String>,
    pub phone: Option<String>,
    pub is_active: bool,
    pub created_at: String,
    pub deleted_at: Option<String>,
}

/// One role.
pub struct RoleRow {
    pub id: i64,
    pub name: String,
    pub description: Option<String>,
    pub is_system: bool,
}

/// One permission.
pub struct PermissionRow {
    pub id: i64,
    pub key: String,
    pub name: String,
}

/// One entry of the account audit log.
pub struct OperationLogRow {
    pub id: i64,
    pub user_id: Option<i64>,
    pub action: String,
    pub target_type: Option<String>,
    pub target_id: Option<i64>,
    pub ip_address: Option<String>,
    pub created_at: String,
}

/// Counts users whose name, display name, email or phone matches `?1`.
pub const USER_SEARCH_COUNT: &'static str = "SELECT COUNT(*) as cnt FROM users WHERE deleted_at IS NULL
                   AND (username LIKE ?1 OR display_name LIKE ?1 OR email LIKE ?1 OR phone LIKE ?1)";

/// Users matching `?1`, newest first, page `?2` after `?3` rows.
pub const USER_SEARCH_PAGE: &'static str = "SELECT id, username, password_hash, display_name, role, email, phone,
                        is_active, created_at, updated_at, deleted_at
                 FROM users WHERE deleted_at IS NULL
                   AND (username LIKE ?1 OR display_name LIKE ?1 OR email LIKE ?1 OR phone LIKE ?1)
                 ORDER BY created_at DESC LIMIT ?2 OFFSET ?3";

/// Counts users.
pub const USER_COUNT: &'static str = "SELECT COUNT(*) as cnt FROM users WHERE deleted_at IS NULL";

/// Users, newest first, page `?1` after `?2` rows.
pub const USER_PAGE: &'static str = "SELECT id, username, password_hash, display_name, role, email, phone,
                        is_active, created_at, updated_at, deleted_at
                 FROM users WHERE deleted_at IS NULL
                 ORDER BY created_at DESC LIMIT ?1 OFFSET ?2";

/// Starts an update of a user; the assignments follow.
pub const USER_UPDATE_HEAD: &'static str = "UPDATE users SET ";

/// The user id placeholder up to its number.
pub const USER_UPDATE_ID: &'static str = " WHERE id = ?";

/// Ends an update of one user and returns its columns.
pub const USER_UPDATE_TAIL: &'static str = " AND deleted_at IS NULL
             RETURNING id, username, password_hash, display_name, role, email, phone,
                       is_active, created_at, updated_at, deleted_at";

/// Refreshes `updated_at`.
pub const USER_TOUCH: &'static str = "updated_at = datetime('now')";

impl UserRepo {
    /// The counting and page statements of the user list: users not deleted, those
    /// whose user name, display name, email or phone contains `q` when it is given,
    /// newest first.
    pub fn list_query(q: Option<&str>, page_size: i64, offset: i64) -> (r: ListQuery)
        ensures
            q matches Some(t) ==> r.count@.sql == USER_SEARCH_COUNT@ && r.count@.params == seq![
                SqlValue::Text(seq!['%'] + t@ + seq!['%']),
            ] && r.list@.sql == USER_SEARCH_PAGE@ && r.list@.params == seq![
                SqlValue::Text(seq!['%'] + t@ + seq!['%']),
                SqlValue::Int(page_size),
                SqlValue::Int(offset),
            ],
            q is None ==> r.count@.sql == USER_COUNT@ && r.count@.params.len() == 0
                && r.list@.sql == USER_PAGE@ && r.list@.params == seq![
                SqlValue::Int(page_size),
                SqlValue::Int(offset),
            ],
    {
        match q {
            Some(t) => {
                let mut cp: Vec<SqlParam> = Vec::new();
                cp.push(SqlParam::Text(like_contains(t)));
                let mut lp: Vec<SqlParam> = Vec::new();
                lp.push(SqlParam::Text(like_contains(t)));
                lp.push(SqlParam::Int(page_size));
                lp.push(SqlParam::Int(offset));
                proof {
                    assert(params_view(cp@) =~= seq![SqlValue::Text(seq!['%'] + t@ + seq!['%'])]);
                    assert(params_view(lp@) =~= seq![
                        SqlValue::Text(seq!['%'] + t@ + seq!['%']),
                        SqlValue::Int(page_size),
                        SqlValue::Int(offset),
                    ]);
                }
                ListQuery {
                    count: SqlQuery { sql: owned(USER_SEARCH_COUNT), params: cp },
                    list: SqlQuery { sql: owned(USER_SEARCH_PAGE), params: lp },
                }
            },
            None => {
                let mut lp: Vec<SqlParam> = Vec::new();
                lp.push(SqlParam::Int(page_size));
                lp.push(SqlParam::Int(offset));
                proof {
                    assert(params_view(lp@) =~= seq![SqlValue::Int(page_size), SqlValue::Int(offset)]);
                }
                ListQuery {
                    count: SqlQuery { sql: owned(USER_COUNT), params: Vec::new() },
                    list: SqlQuery { sql: owned(USER_PAGE), params: lp },
                }
            },
        }
    }
}

/// The new values of a user update (each optional).
pub struct UserChanges {
    pub display_name: Option<String>,
    pub role: Option<String>,
    pub email: Option<String>,
    pub phone: Option<String>,
    pub is_active: Option<bool>,
}

/// 1 for a given value, 0 for an absent one.
pub open spec fn one_if(b: bool) -> int {
    if b {
        1
    } else {
        0
    }
}

/// The assignments of a user update: the refresh of `updated_at`, then `col = ?n`
/// for each given value, `n` counting the values bound so far.
pub open spec fn user_sets(c: UserChanges) -> Seq<Seq<char>> {
    let b1 = one_if(c.display_name is Some);
    let b2 = b1 + one_if(c.role is Some);
    let b3 = b2 + one_if(c.email is Some);
    let b4 = b3 + one_if(c.phone is Some);
    seq![USER_TOUCH@] + clause_if(c.display_name is Some, "display_name = ?"@ + int_text(1)) + clause_if(
        c.role is Some,
        "role = ?"@ + int_text(b1 + 1),
    ) + clause_if(c.email is Some, "email = ?"@ + int_text(b2 + 1)) + clause_if(
        c.phone is Some,
        "phone = ?"@ + int_text(b3 + 1),
    ) + clause_if(c.is_active is Some, "is_active = ?"@ + int_text(b4 + 1))
}

/// `1` for active, `0` for inactive.
pub open spec fn active_text(b: bool) -> Seq<char> {
    if b {
        "1"@
    } else {
        "0"@
    }
}

/// The values bound to the assignments, in order.
pub open spec fn user_params(c: UserChanges) -> Seq<SqlValue> {
    string_param(c.display_name) + string_param(c.role) + string_param(c.email) + string_param(
        c.phone,
    ) + match c.is_active {
        Some(b) => seq![SqlValue::Text(active_text(b))],
        None => Seq::empty(),
    }
}

fn push_change(sets: &mut Vec<String>, params: &mut Vec<SqlParam>, prefix: &str, v: &Option<String>)
    requires
        old(params)@.len() < 100,
    ensures
        strings_view(final(sets)@) == strings_view(old(sets)@) + clause_if(
            v is Some,
            prefix@ + int_text(old(params)@.len() as int + 1),
        ),
        params_view(final(params)@) == params_view(old(params)@) + string_param(*v),
        final(params)@.len() == old(params)@.len() + one_if(v is Some),
{
    let ghost s0 = strings_view(sets@);
    let ghost p0 = params_view(params@);
    match v {
        Some(t) => {
            push_numbered_value(sets, params, prefix, SqlParam::Text(t.clone()));
        },
        None => {},
    }
    proof {
        assert(strings_view(sets@) =~= s0 + clause_if(v is Some, prefix@ + int_text(old(params)@.len() as int + 1)));
        assert(params_view(params@) =~= p0 + string_param(*v));
    }
}

impl UserRepo {
    /// The update of one user by id: the assignments of `user_sets` joined by `, `,
    /// then the id placeholder numbered after the bound values; the values and then
    /// the id are bound, and the user comes back.
    pub fn update_query(id: i64, changes: &UserChanges) -> (r: SqlQuery)
        ensures
            r@.sql == USER_UPDATE_HEAD@ + join_with(user_sets(*changes), ", "@) + USER_UPDATE_ID@
                + int_text(user_params(*changes).len() as int + 1) + USER_UPDATE_TAIL@,
            r@.params == user_params(*changes) + seq![SqlValue::Int(id)],
    {
        let mut sets: Vec<String> = Vec::new();
        let mut params: Vec<SqlParam> = Vec::new();
        sets.push(owned(USER_TOUCH));
        proof {
            assert(strings_view(sets@) =~= seq![USER_TOUCH@]);
            assert(params_view(params@) =~= Seq::<SqlValue>::empty());
        }
        push_change(&mut sets, &mut params, "display_name = ?", &changes.display_name);
        push_change(&mut sets, &mut params, "role = ?", &changes.role);
        push_change(&mut sets, &mut params, "email = ?", &changes.email);
        push_change(&mut sets, &mut params, "phone = ?", &changes.phone);
        let ghost s4 = strings_view(sets@);
        let ghost p4 = params_view(params@);
        match changes.is_active {
            Some(b) => {
                let v = if b {
                    owned("1")
                } else {
                    owned("0")
                };
                push_numbered_value(&mut sets, &mut params, "is_active = ?", SqlParam::Text(v));
            },
            None => {},
        }
        proof {
            assert(strings_view(sets@) =~= user_sets(*changes));
            assert(params_view(params@) =~= user_params(*changes));
        }
        let n = params.len();
        let mut sql = owned(USER_UPDATE_HEAD);
        append_joined_strings(&mut sql, &sets, ", ");
        sql.append(USER_UPDATE_ID);
        push_i64(&mut sql, (n + 1) as i64);
        sql.append(USER_UPDATE_TAIL);
        let ghost pv = params_view(params@);
        params.push(SqlParam::Int(id));
        proof {
            assert(params_view(params@) =~= pv + seq![SqlValue::Int(id)]);
        }
        SqlQuery { sql, params }
    }
}


// ---------------------------------------------------------------------------
// Role bindings and the operation log
// ---------------------------------------------------------------------------

/// Drops every role of a user.
pub const USER_ROLES_CLEAR: &'static str = "DELETE FROM user_roles WHERE user_id = ?";

/// Binds a role to a user, unless it is bound already.
pub const USER_ROLE_BIND: &'static str = "INSERT OR IGNORE INTO user_roles (user_id, role_id) VALUES (?, ?)";

/// Records one operation.
pub const OPERATION_LOG_INSERT: &'static str = "INSERT INTO operation_logs (user_id, action, target_type, target_id, ip_address) VALUES (?, ?, ?, ?, ?)";

/// The statements that replace the roles of `user_id` by `role_ids`: first every role
/// binding of the user is dropped, then each role is bound in the given order.
pub fn replace_roles_statements(user_id: i64, role_ids: &Vec<i64>) -> (r: Vec<SqlQuery>)
    ensures
        r@.len() == role_ids@.len() + 1,
        r@[0]@.sql == USER_ROLES_CLEAR@,
        r@[0]@.params == seq![SqlValue::Int(user_id)],
        forall|i: int|
            0 <= i < role_ids@.len() ==> (#[trigger] r@[i + 1])@.sql == USER_ROLE_BIND@ && r@[i
                + 1]@.params == seq![SqlValue::Int(user_id), SqlValue::Int(role_ids@[i])],
{
    let mut out: Vec<SqlQuery> = Vec::new();
    let mut clear: Vec<SqlParam> = Vec::new();
    clear.push(SqlParam::Int(user_id));
    proof {
        assert(params_view(clear@) =~= seq![SqlValue::Int(user_id)]);
    }
    out.push(SqlQuery { sql: String::from_str(USER_ROLES_CLEAR), params: clear });
    let mut i: usize = 0;
    while i < role_ids.len()
        invariant
            i <= role_ids@.len(),
            out@.len() == i + 1,
            out@[0]@.sql == USER_ROLES_CLEAR@,
            out@[0]@.params == seq![SqlValue::Int(user_id)],
            forall|j: int|
                0 <= j < i ==> (#[trigger] out@[j + 1])@.sql == USER_ROLE_BIND@ && out@[j
                    + 1]@.params == seq![SqlValue::Int(user_id), SqlValue::Int(role_ids@[j])],
        decreases role_ids@.len() - i,
    {
        let mut bind: Vec<SqlParam> = Vec::new();
        bind.push(SqlParam::Int(user_id));
        bind.push(SqlParam::Int(role_ids[i]));
        proof {
            assert(params_view(bind@) =~= seq![SqlValue::Int(user_id), SqlValue::Int(role_ids@[i as int])]);
        }
        out.push(SqlQuery { sql: String::from_str(USER_ROLE_BIND), params: bind });
        i = i + 1;
    }
    out
}

/// The record of an operation, when it was done by a known user: the user, the action,
/// the kind and id of its target, and the caller's address; nothing is recorded for an
/// anonymous operation.
pub fn operation_log_statement(
    user_id: Option<i64>,
    action: &str,
    target_type: &str,
    target_id: Option<i64>,
    ip_address: &str,
) -> (r: Option<SqlQuery>)
    ensures
        r is None <==> user_id is None,
        r matches Some(q) ==> q@.sql == OPERATION_LOG_INSERT@ && q@.params == seq![
            SqlValue::Int(user_id.unwrap()),
            SqlValue::Text(action@),
            SqlValue::Text(target_type@),
            match target_id {
                Some(t) => SqlValue::Int(t),
                None => SqlValue::Null,
            },
            SqlValue::Text(ip_address@),
        ],
{
    let uid = match user_id {
        Some(u) => u,
        None => {
            return None;
        },
    };
    let mut params: Vec<SqlParam> = Vec::new();
    params.push(SqlParam::Int(uid));
    params.push(SqlParam::Text(String::from_str(action)));
    params.push(SqlParam::Text(String::from_str(target_type)));
    params.push(
        match target_id {
            Some(t) => SqlParam::Int(t),
            None => SqlParam::Null,
        },
    );
    params.push(SqlParam::Text(String::from_str(ip_address)));
    proof {
        assert(params_view(params@) =~= seq![
            SqlValue::Int(uid),
            SqlValue::Text(action@),
            SqlValue::Text(target_type@),
            match target_id {
                Some(t) => SqlValue::Int(t),
                None => SqlValue::Null,
            },
            SqlValue::Text(ip_address@),
        ]);
    }
    Some(SqlQuery { sql: String::from_str(OPERATION_LOG_INSERT), params })
}

/// A live user by user name.
pub const USER_BY_NAME: &'static str = "SELECT id, username, password_hash, display_name, role, email, phone,\n                    is_active, created_at, updated_at, deleted_at\n             FROM users WHERE username = ? AND deleted_at IS NULL";

/// A live user by id.
pub const USER_BY_ID: &'static str = "SELECT id, username, password_hash, display_name, role, email, phone,\n                    is_active, created_at, updated_at, deleted_at\n             FROM users WHERE id = ? AND deleted_at IS NULL";

/// Inserts a user and returns it.
pub const USER_CREATE: &'static str = "INSERT INTO users (username, password_hash, display_name, role, email, phone)\n             VALUES (?, ?, ?, ?, ?, ?)\n             RETURNING id, username, password_hash, display_name, role, email, phone,\n                       is_active, created_at, updated_at, deleted_at";

/// Replaces a live user's password hash.
pub const USER_PASSWORD: &'static str = "UPDATE users SET password_hash = ?, updated_at = datetime('now')\n             WHERE id = ? AND deleted_at IS NULL";

/// Records a sign-in by refreshing `updated_at`.
pub const USER_LAST_LOGIN: &'static str = "UPDATE users SET updated_at = datetime('now')\n             WHERE id = ? AND deleted_at IS NULL";

/// Sets a live user's role and returns the user.
pub const USER_ROLE_SET: &'static str = "UPDATE users SET role = ?1, updated_at = datetime('now')\n             WHERE id = ?2 AND deleted_at IS NULL\n             RETURNING id, username, password_hash, display_name, role, email, phone,\n                       is_active, created_at, updated_at, deleted_at";

/// Soft-deletes a live user and returns it.
pub const USER_SOFT_DELETE: &'static str = "UPDATE users SET deleted_at = datetime('now')\n             WHERE id = ? AND deleted_at IS NULL\n             RETURNING id, username, password_hash, display_name, role, email, phone,\n                       is_active, created_at, updated_at, deleted_at";

impl UserRepo {
    /// Finds the user named `username`, unless deleted.
    pub fn find_by_username_query(username: &str) -> (r: SqlQuery)
        ensures
            r@.sql == USER_BY_NAME@,
            r@.params == seq![SqlValue::Text(username@)],
    {
        let mut params: Vec<SqlParam> = Vec::new();
        params.push(SqlParam::Text(owned(username)));
        proof {
            assert(params_view(params@) =~= seq![SqlValue::Text(username@)]);
        }
        SqlQuery { sql: owned(USER_BY_NAME), params }
    }

    /// Finds user `id`, unless deleted.
    pub fn find_by_id_query(id: i64) -> (r: SqlQuery)
        ensures
            r@.sql == USER_BY_ID@,
            r@.params == seq![SqlValue::Int(id)],
    {
        let mut params: Vec<SqlParam> = Vec::new();
        params.push(SqlParam::Int(id));
        proof {
            assert(params_view(params@) =~= seq![SqlValue::Int(id)]);
        }
        SqlQuery { sql: owned(USER_BY_ID), params }
    }

    /// Creates a user with the given name, password hash, display name, role, email and phone.
    pub fn create_query(username: &str, password_hash: &str, display_name: Option<&str>, role: &str, email: Option<&str>, phone: Option<&str>) -> (r: SqlQuery)
        ensures
            r@.sql == USER_CREATE@,
            r@.params == seq![SqlValue::Text(username@), SqlValue::Text(password_hash@), nullable_text(display_name), SqlValue::Text(role@), nullable_text(email), nullable_text(phone)],
    {
        let mut params: Vec<SqlParam> = Vec::new();
        params.push(SqlParam::Text(owned(username)));
        params.push(SqlParam::Text(owned(password_hash)));
        params.push(nullable_param(display_name));
        params.push(SqlParam::Text(owned(role)));
        params.push(nullable_param(email));
        params.push(nullable_param(phone));
        proof {
            assert(params_view(params@) =~= seq![SqlValue::Text(username@), SqlValue::Text(password_hash@), nullable_text(display_name), SqlValue::Text(role@), nullable_text(email), nullable_text(phone)]);
        }
        SqlQuery { sql: owned(USER_CREATE), params }
    }

    /// Stores `password_hash` as user `id`'s password hash.
    pub fn update_password_query(password_hash: &str, id: i64) -> (r: SqlQuery)
        ensures
            r@.sql == USER_PASSWORD@,
            r@.params == seq![SqlValue::Text(password_hash@), SqlValue::Int(id)],
    {
        let mut params: Vec<SqlParam> = Vec::new();
        params.push(SqlParam::Text(owned(password_hash)));
        params.push(SqlParam::Int(id));
        proof {
            assert(params_view(params@) =~= seq![SqlValue::Text(password_hash@), SqlValue::Int(id)]);
        }
        SqlQuery { sql: owned(USER_PASSWORD), params }
    }

    /// Records a sign-in of user `id`.
    pub fn update_last_login_query(id: i64) -> (r: SqlQuery)
        ensures
            r@.sql == USER_LAST_LOGIN@,
            r@.params == seq![SqlValue::Int(id)],
    {
        let mut params: Vec<SqlParam> = Vec::new();
        params.push(SqlParam::Int(id));
        proof {
            assert(params_view(params@) =~= seq![SqlValue::Int(id)]);
        }
        SqlQuery { sql: owned(USER_LAST_LOGIN), params }
    }

    /// Gives user `user_id` the role `role`.
    pub fn update_role_query(role: &str, user_id: i64) -> (r: SqlQuery)
        ensures
            r@.sql == USER_ROLE_SET@,
            r@.params == seq![SqlValue::Text(role@), SqlValue::Int(user_id)],
    {
        let mut params: Vec<SqlParam> = Vec::new();
        params.push(SqlParam::Text(owned(role)));
        params.push(SqlParam::Int(user_id));
        proof {
            assert(params_view(params@) =~= seq![SqlValue::Text(role@), SqlValue::Int(user_id)]);
        }
        SqlQuery { sql: owned(USER_ROLE_SET), params }
    }

    /// Soft-deletes user `user_id`; no row comes back when there is no such live user.
    pub fn delete_soft_query(user_id: i64) -> (r: SqlQuery)
        ensures
            r@.sql == USER_SOFT_DELETE@,
            r@.params == seq![SqlValue::Int(user_id)],
    {
        let mut params: Vec<SqlParam> = Vec::new();
        params.push(SqlParam::Int(user_id));
        proof {
            assert(params_view(params@) =~= seq![SqlValue::Int(user_id)]);
        }
        SqlQuery { sql: owned(USER_SOFT_DELETE), params }
    }
}

} // verus!
