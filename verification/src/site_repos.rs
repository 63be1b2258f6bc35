//! Storage locations, stock on hand, pipe labels and refresh tokens: the
//! statements of their repositories that depend on the request.
use vstd::prelude::*;
use crate::updates::{lemma_chosen_exactly_flagged};
use crate::query::{nullable_param, nullable_text, optional_int, optional_int_param};
use crate::numbering::{int_text, push_i64};
use crate::pipes::decimal_param;
use crate::query::{
    assemble, clause_if, clauses_view, conditions_text, copy_params, params_view, well_bound,
    Conditions, ListQuery, SqlParam, SqlQuery, SqlValue,
};
use crate::repo_text::{lemma_not_deleted, NOT_DELETED};
use crate::sql_text::{lemma_no_suffix, NO_SUFFIX};
use crate::text::{count_char, count_upto, owned, push_char};
use crate::updates::{appended_sets, appended_update, chosen, names_view, UpdatePlan};

verus! {

/// Storage locations (`locations`).
pub struct LocationRepo;

/// Stock on hand, from the inventory log.
pub struct InventoryRepo;

/// The rows printed on labels: pipes and certificates.
pub struct LabelRepo;

/// Refresh tokens of signed-in users.
pub struct RefreshTokenRepo;

/// Counts locations; the conditions follow.
pub const LOCATION_COUNT_HEAD: &'static str = "SELECT COUNT(*) as cnt FROM locations WHERE ";

/// `LOCATION_COUNT_HEAD` holds 0 placeholders.
pub proof fn lemma_location_count_head()
    ensures
        count_char(LOCATION_COUNT_HEAD@, '?') == 0,
{
    reveal_strlit("SELECT COUNT(*) as cnt FROM locations WHERE ");
    reveal_with_fuel(count_upto, 41);
    let s = LOCATION_COUNT_HEAD@;
    assert(count_upto(s, '?', 40) == 0);
    assert(s.len() == 44);
}

/// Selects locations; the conditions follow.
pub const LOCATION_ROWS_HEAD: &'static str = "SELECT id, zone_code, shelf_code, level_code, full_code, description, capacity, used_count, is_active, created_at, updated_at, deleted_at FROM locations WHERE ";

/// `LOCATION_ROWS_HEAD` holds 0 placeholders.
pub proof fn lemma_location_rows_head()
    ensures
        count_char(LOCATION_ROWS_HEAD@, '?') == 0,
{
    reveal_strlit("SELECT id, zone_code, shelf_code, level_code, full_code, description, capacity, used_count, is_active, created_at, updated_at, deleted_at FROM locations WHERE ");
    reveal_with_fuel(count_upto, 41);
    let s = LOCATION_ROWS_HEAD@;
    assert(count_upto(s, '?', 40) == 0);
    assert(count_upto(s, '?', 80) == 0);
    assert(count_upto(s, '?', 120) == 0);
    assert(s.len() == 159);
}

/// Locations by zone, shelf and level, one page.
pub const LOCATION_PAGE: &'static str = " ORDER BY zone_code ASC, shelf_code ASC, level_code ASC LIMIT ? OFFSET ?";

/// `LOCATION_PAGE` holds 2 placeholders.
pub proof fn lemma_location_page()
    ensures
        count_char(LOCATION_PAGE@, '?') == 2,
{
    reveal_strlit(" ORDER BY zone_code ASC, shelf_code ASC, level_code ASC LIMIT ? OFFSET ?");
    reveal_with_fuel(count_upto, 41);
    let s = LOCATION_PAGE@;
    assert(count_upto(s, '?', 40) == 0);
    assert(s.len() == 72);
}

/// Active locations only.
pub const ACTIVE_ONLY: &'static str = "is_active = 1";

/// `ACTIVE_ONLY` holds 0 placeholders.
pub proof fn lemma_active_only()
    ensures
        count_char(ACTIVE_ONLY@, '?') == 0,
{
    reveal_strlit("is_active = 1");
    reveal_with_fuel(count_upto, 41);
    let s = ACTIVE_ONLY@;
    assert(s.len() == 13);
}

/// Stock on hand less the active reservations, per item; the conditions follow.
pub const ATP_HEAD: &'static str = "SELECT i.id AS item_id, i.sku,\n                    CAST(COALESCE(SUM(CASE WHEN l.change_type IN ('inbound', 'check_adjust')\n                                      THEN l.quantity ELSE -l.quantity END) , 0.0)\n                         - COALESCE((SELECT SUM(CAST(r.quantity AS REAL)) FROM reservations r\n                                     WHERE r.item_id = i.id AND r.status = 'active'), 0.0) AS REAL) AS available,\n                    NULL AS location_id\n             FROM items i\n             LEFT JOIN inventory_logs l ON l.item_id = i.id\n             WHERE ";

/// `ATP_HEAD` holds 0 placeholders.
pub proof fn lemma_atp_head()
    ensures
        count_char(ATP_HEAD@, '?') == 0,
{
    reveal_strlit("SELECT i.id AS item_id, i.sku,\n                    CAST(COALESCE(SUM(CASE WHEN l.change_type IN ('inbound', 'check_adjust')\n                                      THEN l.quantity ELSE -l.quantity END) , 0.0)\n                         - COALESCE((SELECT SUM(CAST(r.quantity AS REAL)) FROM reservations r\n                                     WHERE r.item_id = i.id AND r.status = 'active'), 0.0) AS REAL) AS available,\n                    NULL AS location_id\n             FROM items i\n             LEFT JOIN inventory_logs l ON l.item_id = i.id\n             WHERE ");
    reveal_with_fuel(count_upto, 41);
    let s = ATP_HEAD@;
    assert(count_upto(s, '?', 40) == 0);
    assert(count_upto(s, '?', 80) == 0);
    assert(count_upto(s, '?', 120) == 0);
    assert(count_upto(s, '?', 160) == 0);
    assert(count_upto(s, '?', 200) == 0);
    assert(count_upto(s, '?', 240) == 0);
    assert(count_upto(s, '?', 280) == 0);
    assert(count_upto(s, '?', 320) == 0);
    assert(count_upto(s, '?', 360) == 0);
    assert(count_upto(s, '?', 400) == 0);
    assert(count_upto(s, '?', 440) == 0);
    assert(count_upto(s, '?', 480) == 0);
    assert(count_upto(s, '?', 520) == 0);
    assert(s.len() == 560);
}

/// Groups the stock on hand per item and keeps the positive ones.
pub const ATP_TAIL: &'static str = "\n             GROUP BY i.id, i.sku\n             HAVING COALESCE(SUM(CASE WHEN l.change_type IN ('inbound', 'check_adjust')\n                                       THEN l.quantity ELSE -l.quantity END) , 0.0) > 0\n             ORDER BY i.sku";

/// `ATP_TAIL` holds 0 placeholders.
pub proof fn lemma_atp_tail()
    ensures
        count_char(ATP_TAIL@, '?') == 0,
{
    reveal_strlit("\n             GROUP BY i.id, i.sku\n             HAVING COALESCE(SUM(CASE WHEN l.change_type IN ('inbound', 'check_adjust')\n                                       THEN l.quantity ELSE -l.quantity END) , 0.0) > 0\n             ORDER BY i.sku");
    reveal_with_fuel(count_upto, 41);
    let s = ATP_TAIL@;
    assert(count_upto(s, '?', 40) == 0);
    assert(count_upto(s, '?', 80) == 0);
    assert(count_upto(s, '?', 120) == 0);
    assert(count_upto(s, '?', 160) == 0);
    assert(count_upto(s, '?', 200) == 0);
    assert(s.len() == 238);
}

/// Items not soft-deleted.
pub const ITEM_NOT_DELETED: &'static str = "i.deleted_at IS NULL";

/// `ITEM_NOT_DELETED` holds 0 placeholders.
pub proof fn lemma_item_not_deleted()
    ensures
        count_char(ITEM_NOT_DELETED@, '?') == 0,
{
    reveal_strlit("i.deleted_at IS NULL");
    reveal_with_fuel(count_upto, 41);
    let s = ITEM_NOT_DELETED@;
    assert(s.len() == 20);
}

/// Movements of one item.
pub const LOG_ITEM_EQ: &'static str = "l.item_id = ?";

/// `LOG_ITEM_EQ` holds 1 placeholder.
pub proof fn lemma_log_item_eq()
    ensures
        count_char(LOG_ITEM_EQ@, '?') == 1,
{
    reveal_strlit("l.item_id = ?");
    reveal_with_fuel(count_upto, 41);
    let s = LOG_ITEM_EQ@;
    assert(s.len() == 13);
}

/// Movements from or to one location.
pub const LOG_LOCATION_EQ: &'static str = "(l.from_location_id = ? OR l.to_location_id = ?)";

/// `LOG_LOCATION_EQ` holds 2 placeholders.
pub proof fn lemma_log_location_eq()
    ensures
        count_char(LOG_LOCATION_EQ@, '?') == 2,
{
    reveal_strlit("(l.from_location_id = ? OR l.to_location_id = ?)");
    reveal_with_fuel(count_upto, 41);
    let s = LOG_LOCATION_EQ@;
    assert(count_upto(s, '?', 40) == 1);
    assert(s.len() == 48);
}

/// Positive stock per item at one location.
pub const STOCK_AT_LOCATION: &'static str = "SELECT l.item_id,\n                            CAST(COALESCE(SUM(CASE WHEN l.to_location_id = ? THEN l.quantity\n                                     WHEN l.from_location_id = ? THEN -l.quantity\n                                     ELSE 0 END), 0.0) AS REAL) AS qty\n                     FROM inventory_logs l\n                     WHERE (l.from_location_id = ? OR l.to_location_id = ?)\n                     GROUP BY l.item_id\n                     HAVING SUM(CASE WHEN l.to_location_id = ? THEN l.quantity\n                                     WHEN l.from_location_id = ? THEN -l.quantity\n                                     ELSE 0 END) > 0";

/// `STOCK_AT_LOCATION` holds 6 placeholders.
pub proof fn lemma_stock_at_location()
    ensures
        count_char(STOCK_AT_LOCATION@, '?') == 6,
{
    reveal_strlit("SELECT l.item_id,\n                            CAST(COALESCE(SUM(CASE WHEN l.to_location_id = ? THEN l.quantity\n                                     WHEN l.from_location_id = ? THEN -l.quantity\n                                     ELSE 0 END), 0.0) AS REAL) AS qty\n                     FROM inventory_logs l\n                     WHERE (l.from_location_id = ? OR l.to_location_id = ?)\n                     GROUP BY l.item_id\n                     HAVING SUM(CASE WHEN l.to_location_id = ? THEN l.quantity\n                                     WHEN l.from_location_id = ? THEN -l.quantity\n                                     ELSE 0 END) > 0");
    reveal_with_fuel(count_upto, 41);
    let s = STOCK_AT_LOCATION@;
    assert(count_upto(s, '?', 40) == 0);
    assert(count_upto(s, '?', 80) == 0);
    assert(count_upto(s, '?', 120) == 1);
    assert(count_upto(s, '?', 160) == 1);
    assert(count_upto(s, '?', 200) == 2);
    assert(count_upto(s, '?', 240) == 2);
    assert(count_upto(s, '?', 280) == 2);
    assert(count_upto(s, '?', 320) == 2);
    assert(count_upto(s, '?', 360) == 3);
    assert(count_upto(s, '?', 400) == 4);
    assert(count_upto(s, '?', 440) == 4);
    assert(count_upto(s, '?', 480) == 4);
    assert(count_upto(s, '?', 520) == 5);
    assert(count_upto(s, '?', 560) == 5);
    assert(count_upto(s, '?', 600) == 6);
    assert(s.len() == 636);
}

/// Positive stock per item over all locations.
pub const STOCK_EVERYWHERE: &'static str = "SELECT l.item_id,\n                                  CAST(COALESCE(SUM(CASE WHEN l.change_type IN ('inbound', 'check_adjust')\n                                           THEN l.quantity ELSE -l.quantity END), 0.0) AS REAL) AS qty\n                           FROM inventory_logs l\n                           GROUP BY l.item_id\n                           HAVING SUM(CASE WHEN l.change_type IN ('inbound', 'check_adjust')\n                                           THEN l.quantity ELSE -l.quantity END) > 0";

/// `STOCK_EVERYWHERE` holds 0 placeholders.
pub proof fn lemma_stock_everywhere()
    ensures
        count_char(STOCK_EVERYWHERE@, '?') == 0,
{
    reveal_strlit("SELECT l.item_id,\n                                  CAST(COALESCE(SUM(CASE WHEN l.change_type IN ('inbound', 'check_adjust')\n                                           THEN l.quantity ELSE -l.quantity END), 0.0) AS REAL) AS qty\n                           FROM inventory_logs l\n                           GROUP BY l.item_id\n                           HAVING SUM(CASE WHEN l.change_type IN ('inbound', 'check_adjust')\n                                           THEN l.quantity ELSE -l.quantity END) > 0");
    reveal_with_fuel(count_upto, 41);
    let s = STOCK_EVERYWHERE@;
    assert(count_upto(s, '?', 40) == 0);
    assert(count_upto(s, '?', 80) == 0);
    assert(count_upto(s, '?', 120) == 0);
    assert(count_upto(s, '?', 160) == 0);
    assert(count_upto(s, '?', 200) == 0);
    assert(count_upto(s, '?', 240) == 0);
    assert(count_upto(s, '?', 280) == 0);
    assert(count_upto(s, '?', 320) == 0);
    assert(count_upto(s, '?', 360) == 0);
    assert(count_upto(s, '?', 400) == 0);
    assert(count_upto(s, '?', 440) == 0);
    assert(count_upto(s, '?', 480) == 0);
    assert(s.len() == 500);
}

/// Starts an update of a location.
pub const LOCATION_UPDATE_HEAD: &'static str = "UPDATE locations SET updated_at = datetime('now')";

/// Ends an update of one location by id and returns its columns.
pub const LOCATION_UPDATE_TAIL: &'static str = " WHERE id = ? AND deleted_at IS NULL RETURNING id, zone_code, shelf_code, level_code, full_code, description, capacity, used_count, is_active, created_at, updated_at, deleted_at";

/// Stores a new refresh token (by the hash of the opaque token) and returns it.
pub const TOKEN_CREATE: &'static str = "INSERT INTO refresh_tokens (user_id, token_hash, expires_at)
             VALUES (?, ?, ?)
             RETURNING id, user_id, token_hash, expires_at, created_at, revoked_at";

/// Finds a refresh token by hash that is neither revoked nor expired.
pub const TOKEN_BY_HASH: &'static str = "SELECT id, user_id, token_hash, expires_at, created_at, revoked_at
             FROM refresh_tokens
             WHERE token_hash = ?
               AND revoked_at IS NULL
               AND expires_at > strftime('%Y-%m-%dT%H:%M:%SZ', 'now')";

/// Revokes one refresh token by hash, unless it is revoked already.
pub const TOKEN_REVOKE: &'static str = "UPDATE refresh_tokens SET revoked_at = datetime('now')
             WHERE token_hash = ? AND revoked_at IS NULL";

/// Revokes every refresh token of one user that is not revoked yet.
pub const TOKEN_REVOKE_ALL: &'static str = "UPDATE refresh_tokens SET revoked_at = datetime('now')
             WHERE user_id = ? AND revoked_at IS NULL";

/// Deletes revoked or expired refresh tokens older than a time modifier.
pub const TOKEN_CLEANUP: &'static str = "DELETE FROM refresh_tokens
             WHERE (revoked_at IS NOT NULL OR expires_at < datetime('now'))
               AND created_at < datetime('now', ?)";

/// The conditions of the location list.
pub open spec fn location_clauses(active_only: bool) -> Seq<Seq<char>> {
    seq![NOT_DELETED@] + clause_if(active_only, ACTIVE_ONLY@)
}

fn location_conditions(active_only: bool) -> (r: Conditions)
    ensures
        clauses_view(r.clauses@) == location_clauses(active_only),
        r.params@.len() == 0,
        r.wf(),
{
    proof {
        lemma_not_deleted();
        lemma_active_only();
    }
    let mut c = Conditions::new();
    c.push_plain(NOT_DELETED);
    if active_only {
        c.push_plain(ACTIVE_ONLY);
    }
    proof {
        assert(clauses_view(c.clauses@) =~= location_clauses(active_only));
    }
    c
}

impl LocationRepo {
    /// The counting and page statements of the location list: locations not
    /// deleted (active ones only when asked), by zone, shelf and level, one page of
    /// `page_size` rows after `offset` rows.
    pub fn list_query(active_only: bool, page_size: i64, offset: i64) -> (r: ListQuery)
        ensures
            r.count@.sql == LOCATION_COUNT_HEAD@ + conditions_text(location_clauses(active_only), ""@),
            r.count@.params.len() == 0,
            r.list@.sql == LOCATION_ROWS_HEAD@ + conditions_text(location_clauses(active_only), ""@)
                + LOCATION_PAGE@,
            r.list@.params == seq![SqlValue::Int(page_size), SqlValue::Int(offset)],
            well_bound(r.count@),
            well_bound(r.list@),
    {
        proof {
            lemma_location_count_head();
            lemma_location_rows_head();
            lemma_location_page();
            lemma_no_suffix();
            reveal_strlit("");
        }
        let a = location_conditions(active_only);
        let b = location_conditions(active_only);
        let count = assemble(LOCATION_COUNT_HEAD, "", a, NO_SUFFIX, Vec::new());
        let mut tail: Vec<SqlParam> = Vec::new();
        tail.push(SqlParam::Int(page_size));
        tail.push(SqlParam::Int(offset));
        let list = assemble(LOCATION_ROWS_HEAD, "", b, LOCATION_PAGE, tail);
        proof {
            assert(NO_SUFFIX@.len() == 0);
            assert(count@.sql =~= LOCATION_COUNT_HEAD@ + conditions_text(location_clauses(active_only), ""@));
            assert(list@.params =~= seq![SqlValue::Int(page_size), SqlValue::Int(offset)]);
        }
        ListQuery { count, list }
    }
}

/// Which fields of a location update carry a new value.
pub struct LocationChanges {
    pub description: bool,
    pub capacity: bool,
    pub is_active: bool,
}

/// The columns a location update may set, in the order it sets them.
pub open spec fn location_changes_columns() -> Seq<Seq<char>> {
    seq!["description"@, "capacity"@, "is_active"@]
}

/// The presence flags of a location update in column order.
pub open spec fn location_changes_flags(c: LocationChanges) -> Seq<bool> {
    seq![c.description, c.capacity, c.is_active]
}

impl LocationRepo {
    /// The update of one row by id: `updated_at` is always reset, each supplied
    /// field is set, and the row comes back.  The new values are bound in the order
    /// of `columns`, then the id.
    pub fn update_plan(changes: &LocationChanges) -> (r: UpdatePlan)
        ensures
            names_view(r.columns@) == chosen(location_changes_columns(), location_changes_flags(*changes)),
            r.sql@ == LOCATION_UPDATE_HEAD@ + appended_sets(chosen(location_changes_columns(), location_changes_flags(*changes))) + LOCATION_UPDATE_TAIL@,
    {
        let names: Vec<&'static str> = vec!["description", "capacity", "is_active"];
        let flags: Vec<bool> = vec![changes.description, changes.capacity, changes.is_active];
        proof {
            assert(names_view(names@) =~= location_changes_columns());
            assert(flags@ =~= location_changes_flags(*changes));
        }
        appended_update(LOCATION_UPDATE_HEAD, &names, &flags, LOCATION_UPDATE_TAIL)
    }
}

/// The conditions of the available-to-promise query.
pub open spec fn atp_clauses(item_id: Option<i64>, location_id: Option<i64>) -> Seq<Seq<char>> {
    seq![ITEM_NOT_DELETED@] + clause_if(item_id is Some, LOG_ITEM_EQ@) + clause_if(
        location_id is Some,
        LOG_LOCATION_EQ@,
    )
}

/// The values bound to the available-to-promise conditions: the item id, then the
/// location id twice, each as its decimal text.
pub open spec fn atp_params(item_id: Option<i64>, location_id: Option<i64>) -> Seq<SqlValue> {
    decimal_param(item_id) + decimal_param(location_id) + decimal_param(location_id)
}

fn id_text(n: i64) -> (r: String)
    ensures
        r@ == int_text(n as int),
{
    let mut t = String::new();
    push_i64(&mut t, n);
    proof {
        assert(t@ =~= int_text(n as int));
    }
    t
}

impl InventoryRepo {
    /// The available-to-promise statement: per item with positive stock on hand
    /// (inbound and count adjustments add, other movements subtract), that stock
    /// less the sum of the item's active reservations, for one item and one
    /// location when given.
    pub fn atp_query(item_id: Option<i64>, location_id: Option<i64>) -> (r: SqlQuery)
        ensures
            r@.sql == ATP_HEAD@ + conditions_text(atp_clauses(item_id, location_id), ""@) + ATP_TAIL@,
            r@.params == atp_params(item_id, location_id),
            well_bound(r@),
    {
        proof {
            lemma_item_not_deleted();
            lemma_log_item_eq();
            lemma_log_location_eq();
            lemma_atp_head();
            lemma_atp_tail();
            lemma_no_suffix();
            reveal_strlit("");
        }
        let mut c = Conditions::new();
        c.push_plain(ITEM_NOT_DELETED);
        let ghost c1 = clauses_view(c.clauses@);
        proof {
            assert(c1 =~= seq![ITEM_NOT_DELETED@]);
            assert(params_view(c.params@) =~= Seq::<SqlValue>::empty());
        }
        match item_id {
            Some(id) => {
                c.push1(LOG_ITEM_EQ, SqlParam::Text(id_text(id)));
            },
            None => {},
        }
        let ghost c2 = clauses_view(c.clauses@);
        let ghost p2 = params_view(c.params@);
        proof {
            assert(c2 =~= c1 + clause_if(item_id is Some, LOG_ITEM_EQ@));
            assert(p2 =~= decimal_param(item_id));
        }
        match location_id {
            Some(loc) => {
                c.push2(LOG_LOCATION_EQ, SqlParam::Text(id_text(loc)), SqlParam::Text(id_text(loc)));
            },
            None => {},
        }
        proof {
            assert(clauses_view(c.clauses@) =~= atp_clauses(item_id, location_id));
            assert(params_view(c.params@) =~= atp_params(item_id, location_id));
        }
        let none: Vec<SqlParam> = Vec::new();
        let q = assemble(ATP_HEAD, "", c, ATP_TAIL, none);
        proof {
            assert(q@.params =~= atp_params(item_id, location_id));
        }
        q
    }

    /// The positive stock per item: at one location (the location id bound six
    /// times as its decimal text), or over all locations.
    pub fn stock_query(location_id: Option<i64>) -> (r: SqlQuery)
        ensures
            location_id is None ==> r@.sql == STOCK_EVERYWHERE@ && r@.params.len() == 0,
            location_id matches Some(loc) ==> r@.sql == STOCK_AT_LOCATION@ && r@.params == seq![
                SqlValue::Text(int_text(loc as int)),
                SqlValue::Text(int_text(loc as int)),
                SqlValue::Text(int_text(loc as int)),
                SqlValue::Text(int_text(loc as int)),
                SqlValue::Text(int_text(loc as int)),
                SqlValue::Text(int_text(loc as int)),
            ],
            well_bound(r@),
    {
        proof {
            lemma_stock_at_location();
            lemma_stock_everywhere();
        }
        match location_id {
            Some(loc) => {
                let mut params: Vec<SqlParam> = Vec::new();
                let mut k: usize = 0;
                while k < 6
                    invariant
                        k <= 6,
                        params@.len() == k,
                        forall|i: int| 0 <= i < k ==> (#[trigger] params@[i])@ == SqlValue::Text(int_text(loc as int)),
                    decreases 6 - k,
                {
                    params.push(SqlParam::Text(id_text(loc)));
                    k = k + 1;
                }
                proof {
                    assert(params_view(params@) =~= seq![
                        SqlValue::Text(int_text(loc as int)),
                        SqlValue::Text(int_text(loc as int)),
                        SqlValue::Text(int_text(loc as int)),
                        SqlValue::Text(int_text(loc as int)),
                        SqlValue::Text(int_text(loc as int)),
                        SqlValue::Text(int_text(loc as int)),
                    ]);
                }
                SqlQuery { sql: owned(STOCK_AT_LOCATION), params }
            },
            None => SqlQuery { sql: owned(STOCK_EVERYWHERE), params: Vec::new() },
        }
    }
}

/// `format!("-{} days", days)`: the SQLite time modifier for `days` days back.
pub open spec fn days_back(days: int) -> Seq<char> {
    seq!['-'] + int_text(days) + " days"@
}

/// Writes the time modifier for `days` days back.
pub fn days_back_text(days: i64) -> (r: String)
    ensures
        r@ == days_back(days as int),
{
    let mut t = String::new();
    push_char(&mut t, '-');
    push_i64(&mut t, days);
    t.append(" days");
    proof {
        assert(t@ =~= days_back(days as int));
    }
    t
}

impl RefreshTokenRepo {
    /// Deletes the revoked or expired tokens created more than `days` days ago.
    pub fn cleanup_query(days: i64) -> (r: SqlQuery)
        ensures
            r@.sql == TOKEN_CLEANUP@,
            r@.params == seq![SqlValue::Text(days_back(days as int))],
    {
        let mut params: Vec<SqlParam> = Vec::new();
        params.push(SqlParam::Text(days_back_text(days)));
        proof {
            assert(params_view(params@) =~= seq![SqlValue::Text(days_back(days as int))]);
        }
        SqlQuery { sql: owned(TOKEN_CLEANUP), params }
    }
    /// Stores a new refresh token of user `user_id`, given by its hash and expiry.
    pub fn create_query(user_id: i64, token_hash: &str, expires_at: &str) -> (r: SqlQuery)
        ensures
            r@.sql == TOKEN_CREATE@,
            r@.params == seq![SqlValue::Int(user_id), SqlValue::Text(token_hash@), SqlValue::Text(expires_at@)],
    {
        let mut params: Vec<SqlParam> = Vec::new();
        params.push(SqlParam::Int(user_id));
        params.push(SqlParam::Text(owned(token_hash)));
        params.push(SqlParam::Text(owned(expires_at)));
        proof {
            assert(params_view(params@) =~= seq![
                SqlValue::Int(user_id),
                SqlValue::Text(token_hash@),
                SqlValue::Text(expires_at@),
            ]);
        }
        SqlQuery { sql: owned(TOKEN_CREATE), params }
    }

    /// Finds the live refresh token with hash `token_hash`: none when it is unknown,
    /// revoked or expired.
    pub fn find_by_token_hash_query(token_hash: &str) -> (r: SqlQuery)
        ensures
            r@.sql == TOKEN_BY_HASH@,
            r@.params == seq![SqlValue::Text(token_hash@)],
    {
        let mut params: Vec<SqlParam> = Vec::new();
        params.push(SqlParam::Text(owned(token_hash)));
        proof {
            assert(params_view(params@) =~= seq![SqlValue::Text(token_hash@)]);
        }
        SqlQuery { sql: owned(TOKEN_BY_HASH), params }
    }

    /// Revokes the refresh token with hash `token_hash`.
    pub fn revoke_query(token_hash: &str) -> (r: SqlQuery)
        ensures
            r@.sql == TOKEN_REVOKE@,
            r@.params == seq![SqlValue::Text(token_hash@)],
    {
        let mut params: Vec<SqlParam> = Vec::new();
        params.push(SqlParam::Text(owned(token_hash)));
        proof {
            assert(params_view(params@) =~= seq![SqlValue::Text(token_hash@)]);
        }
        SqlQuery { sql: owned(TOKEN_REVOKE), params }
    }

    /// Revokes every live refresh token of user `user_id` (sign-out, password change).
    pub fn revoke_all_for_user_query(user_id: i64) -> (r: SqlQuery)
        ensures
            r@.sql == TOKEN_REVOKE_ALL@,
            r@.params == seq![SqlValue::Int(user_id)],
    {
        let mut params: Vec<SqlParam> = Vec::new();
        params.push(SqlParam::Int(user_id));
        proof {
            assert(params_view(params@) =~= seq![SqlValue::Int(user_id)]);
        }
        SqlQuery { sql: owned(TOKEN_REVOKE_ALL), params }
    }
}


/// The signed stock on hand of item `item_id` from its movements: inbound and count adjustments add, every other movement subtracts.
pub const STOCK_ON_HAND: &'static str = "SELECT CAST(COALESCE(SUM(\n                 CASE WHEN change_type IN ('inbound', 'check_adjust') THEN quantity\n                      ELSE -quantity END) , 0.0) AS REAL) AS v\n             FROM inventory_logs WHERE item_id = ?";

/// The signed stock on hand of item `item_id` at location `location_id`: movements into it add, movements out of it subtract.
pub const STOCK_ON_HAND_AT_LOCATION: &'static str = "SELECT CAST(COALESCE(SUM(\n                 CASE WHEN to_location_id = ? THEN quantity\n                      WHEN from_location_id = ? THEN -quantity\n                      ELSE 0 END), 0.0) AS REAL) AS v\n             FROM inventory_logs\n             WHERE item_id = ?\n               AND (from_location_id = ? OR to_location_id = ?)";

/// The signed stock on hand over all items.
pub const STOCK_GET_TOTAL_IN_STOCK: &'static str = "SELECT CAST(COALESCE(SUM(\n                 CASE WHEN change_type IN ('inbound', 'check_adjust') THEN quantity\n                      ELSE -quantity END) , 0.0) AS REAL) AS v\n             FROM inventory_logs";

/// The signed stock on hand per item category of live items (uncategorised items under one label), by category.
pub const STOCK_GET_COUNT_BY_CATEGORY: &'static str = "SELECT COALESCE(i.category, '未分类') AS category,\n                    CAST(COALESCE(SUM(\n                        CASE WHEN l.change_type IN ('inbound', 'check_adjust') THEN l.quantity\n                             ELSE -l.quantity END) , 0.0) AS REAL) AS quantity\n             FROM inventory_logs l\n             JOIN items i ON i.id = l.item_id AND i.deleted_at IS NULL\n             GROUP BY i.category\n             ORDER BY i.category";

/// The signed stock on hand per location, each movement counted at both of its ends, by location.
pub const STOCK_GET_COUNT_BY_LOCATION: &'static str = "SELECT location_id, CAST(COALESCE(SUM(delta), 0.0) AS REAL) AS quantity FROM (\n                 SELECT from_location_id AS location_id, -quantity AS delta\n                 FROM inventory_logs WHERE from_location_id IS NOT NULL\n                 UNION ALL\n                 SELECT to_location_id AS location_id, quantity AS delta\n                 FROM inventory_logs WHERE to_location_id IS NOT NULL\n             ) GROUP BY location_id ORDER BY location_id";

impl InventoryRepo {
    /// The signed stock on hand of item `item_id` from its movements: inbound and count adjustments add, every other movement subtracts.
    pub fn stock_on_hand_query(item_id: i64) -> (r: SqlQuery)
        ensures
            r@.sql == STOCK_ON_HAND@,
            r@.params == seq![SqlValue::Int(item_id)],
    {
        let mut params: Vec<SqlParam> = Vec::new();
        params.push(SqlParam::Int(item_id));
        proof {
            assert(params_view(params@) =~= seq![SqlValue::Int(item_id)]);
        }
        SqlQuery { sql: owned(STOCK_ON_HAND), params }
    }

    /// The signed stock on hand of item `item_id` at location `location_id`: movements into it add, movements out of it subtract.
    pub fn stock_on_hand_at_location_query(item_id: i64, location_id: i64) -> (r: SqlQuery)
        ensures
            r@.sql == STOCK_ON_HAND_AT_LOCATION@,
            r@.params == seq![SqlValue::Int(location_id), SqlValue::Int(location_id), SqlValue::Int(item_id), SqlValue::Int(location_id), SqlValue::Int(location_id)],
    {
        let mut params: Vec<SqlParam> = Vec::new();
        params.push(SqlParam::Int(location_id));
        params.push(SqlParam::Int(location_id));
        params.push(SqlParam::Int(item_id));
        params.push(SqlParam::Int(location_id));
        params.push(SqlParam::Int(location_id));
        proof {
            assert(params_view(params@) =~= seq![SqlValue::Int(location_id), SqlValue::Int(location_id), SqlValue::Int(item_id), SqlValue::Int(location_id), SqlValue::Int(location_id)]);
        }
        SqlQuery { sql: owned(STOCK_ON_HAND_AT_LOCATION), params }
    }

    /// The signed stock on hand over all items.
    pub fn get_total_in_stock_query() -> (r: SqlQuery)
        ensures
            r@.sql == STOCK_GET_TOTAL_IN_STOCK@,
            r@.params.len() == 0,
    {
        let mut params: Vec<SqlParam> = Vec::new();
        SqlQuery { sql: owned(STOCK_GET_TOTAL_IN_STOCK), params }
    }

    /// The signed stock on hand per item category of live items (uncategorised items under one label), by category.
    pub fn get_count_by_category_query() -> (r: SqlQuery)
        ensures
            r@.sql == STOCK_GET_COUNT_BY_CATEGORY@,
            r@.params.len() == 0,
    {
        let mut params: Vec<SqlParam> = Vec::new();
        SqlQuery { sql: owned(STOCK_GET_COUNT_BY_CATEGORY), params }
    }

    /// The signed stock on hand per location, each movement counted at both of its ends, by location.
    pub fn get_count_by_location_query() -> (r: SqlQuery)
        ensures
            r@.sql == STOCK_GET_COUNT_BY_LOCATION@,
            r@.params.len() == 0,
    {
        let mut params: Vec<SqlParam> = Vec::new();
        SqlQuery { sql: owned(STOCK_GET_COUNT_BY_LOCATION), params }
    }
}

/// Live seamless pipe `id`, with every column a label can print.
pub const LABEL_FIND_SEAMLESS_PIPE: &'static str = "SELECT id, pipe_number, batch_number, pipe_type, grade, od, wt, length, weight_per_unit, end_type, coupling_type, coupling_od, coupling_length, heat_number, serial_number, manufacturer, production_date, cert_number, location_id, status, notes, created_at, updated_at, deleted_at FROM seamless_pipes WHERE id = ? AND deleted_at IS NULL";

/// Live screen pipe `id`, with every column a label can print.
pub const LABEL_FIND_SCREEN_PIPE: &'static str = "SELECT id, pipe_number, batch_number, screen_type, slot_size, filtration_grade, base_od, base_wt, base_grade, base_end_type, length, weight_per_unit, heat_number, serial_number, manufacturer, production_date, cert_number, location_id, status, notes, created_at, updated_at, deleted_at FROM screen_pipes WHERE id = ? AND deleted_at IS NULL";

/// Live quality certificate `id`, with every column a label can print.
pub const LABEL_FIND_QUALITY_CERT: &'static str = "SELECT id, cert_number, pipe_type, pipe_id, cert_date, result, inspector, inspection_body, notes, created_at, updated_at, deleted_at FROM quality_certs WHERE id = ? AND deleted_at IS NULL";

impl LabelRepo {
    /// Live seamless pipe `id`, with every column a label can print.
    pub fn find_seamless_pipe_query(id: i64) -> (r: SqlQuery)
        ensures
            r@.sql == LABEL_FIND_SEAMLESS_PIPE@,
            r@.params == seq![SqlValue::Int(id)],
    {
        let mut params: Vec<SqlParam> = Vec::new();
        params.push(SqlParam::Int(id));
        proof {
            assert(params_view(params@) =~= seq![SqlValue::Int(id)]);
        }
        SqlQuery { sql: owned(LABEL_FIND_SEAMLESS_PIPE), params }
    }

    /// Live screen pipe `id`, with every column a label can print.
    pub fn find_screen_pipe_query(id: i64) -> (r: SqlQuery)
        ensures
            r@.sql == LABEL_FIND_SCREEN_PIPE@,
            r@.params == seq![SqlValue::Int(id)],
    {
        let mut params: Vec<SqlParam> = Vec::new();
        params.push(SqlParam::Int(id));
        proof {
            assert(params_view(params@) =~= seq![SqlValue::Int(id)]);
        }
        SqlQuery { sql: owned(LABEL_FIND_SCREEN_PIPE), params }
    }

    /// Live quality certificate `id`, with every column a label can print.
    pub fn find_quality_cert_query(id: i64) -> (r: SqlQuery)
        ensures
            r@.sql == LABEL_FIND_QUALITY_CERT@,
            r@.params == seq![SqlValue::Int(id)],
    {
        let mut params: Vec<SqlParam> = Vec::new();
        params.push(SqlParam::Int(id));
        proof {
            assert(params_view(params@) =~= seq![SqlValue::Int(id)]);
        }
        SqlQuery { sql: owned(LABEL_FIND_QUALITY_CERT), params }
    }
}

/// Resets the occupancy count of live location `location_id` to 0 (stock is kept by quantity, so there is nothing per pipe to count).
pub const LOCATION_REFRESH_USED_COUNT: &'static str = "UPDATE locations SET used_count = 0, updated_at = datetime('now') WHERE id = ? AND deleted_at IS NULL";

/// Finds live location `id`.
pub const LOCATION_FIND_BY_ID: &'static str = "SELECT id, zone_code, shelf_code, level_code, full_code, description, capacity, used_count, is_active, created_at, updated_at, deleted_at FROM locations WHERE id = ? AND deleted_at IS NULL";

/// Finds the live location with full code `code`.
pub const LOCATION_FIND_BY_FULL_CODE: &'static str = "SELECT id, zone_code, shelf_code, level_code, full_code, description, capacity, used_count, is_active, created_at, updated_at, deleted_at FROM locations WHERE full_code = ? AND deleted_at IS NULL";

/// Soft-deletes location `id`; nothing changes when it is deleted already.
pub const LOCATION_DELETE: &'static str = "UPDATE locations SET deleted_at = datetime('now'), updated_at = datetime('now') WHERE id = ? AND deleted_at IS NULL";

impl LocationRepo {
    /// Resets the occupancy count of live location `location_id` to 0 (stock is kept by quantity, so there is nothing per pipe to count).
    pub fn refresh_used_count_query(location_id: i64) -> (r: SqlQuery)
        ensures
            r@.sql == LOCATION_REFRESH_USED_COUNT@,
            r@.params == seq![SqlValue::Int(location_id)],
    {
        let mut params: Vec<SqlParam> = Vec::new();
        params.push(SqlParam::Int(location_id));
        proof {
            assert(params_view(params@) =~= seq![SqlValue::Int(location_id)]);
        }
        SqlQuery { sql: owned(LOCATION_REFRESH_USED_COUNT), params }
    }

    /// Finds live location `id`.
    pub fn find_by_id_query(id: i64) -> (r: SqlQuery)
        ensures
            r@.sql == LOCATION_FIND_BY_ID@,
            r@.params == seq![SqlValue::Int(id)],
    {
        let mut params: Vec<SqlParam> = Vec::new();
        params.push(SqlParam::Int(id));
        proof {
            assert(params_view(params@) =~= seq![SqlValue::Int(id)]);
        }
        SqlQuery { sql: owned(LOCATION_FIND_BY_ID), params }
    }

    /// Finds the live location with full code `code`.
    pub fn find_by_full_code_query(code: &str) -> (r: SqlQuery)
        ensures
            r@.sql == LOCATION_FIND_BY_FULL_CODE@,
            r@.params == seq![SqlValue::Text(code@)],
    {
        let mut params: Vec<SqlParam> = Vec::new();
        params.push(SqlParam::Text(owned(code)));
        proof {
            assert(params_view(params@) =~= seq![SqlValue::Text(code@)]);
        }
        SqlQuery { sql: owned(LOCATION_FIND_BY_FULL_CODE), params }
    }

    /// Soft-deletes location `id`; nothing changes when it is deleted already.
    pub fn delete_query(id: i64) -> (r: SqlQuery)
        ensures
            r@.sql == LOCATION_DELETE@,
            r@.params == seq![SqlValue::Int(id)],
    {
        let mut params: Vec<SqlParam> = Vec::new();
        params.push(SqlParam::Int(id));
        proof {
            assert(params_view(params@) =~= seq![SqlValue::Int(id)]);
        }
        SqlQuery { sql: owned(LOCATION_DELETE), params }
    }
}

/// Creates a location with its zone, shelf and level codes and full code, and returns it.
pub const LOCATION_CREATE: &'static str = "INSERT INTO locations (zone_code, shelf_code, level_code, full_code, description, capacity) VALUES (?, ?, ?, ?, ?, ?) RETURNING id, zone_code, shelf_code, level_code, full_code, description, capacity, used_count, is_active, created_at, updated_at, deleted_at";

impl LocationRepo {
    /// Creates a location with its zone, shelf and level codes and full code, and returns it.
    pub fn create_query(zone_code: &str, shelf_code: &str, level_code: &str, full_code: &str, description: Option<&str>, capacity: Option<i64>) -> (r: SqlQuery)
        ensures
            r@.sql == LOCATION_CREATE@,
            r@.params == seq![SqlValue::Text(zone_code@), SqlValue::Text(shelf_code@), SqlValue::Text(level_code@), SqlValue::Text(full_code@), nullable_text(description), optional_int(capacity)],
    {
        let mut params: Vec<SqlParam> = Vec::new();
        params.push(SqlParam::Text(owned(zone_code)));
        params.push(SqlParam::Text(owned(shelf_code)));
        params.push(SqlParam::Text(owned(level_code)));
        params.push(SqlParam::Text(owned(full_code)));
        params.push(nullable_param(description));
        params.push(optional_int_param(capacity));
        proof {
            assert(params_view(params@) =~= seq![SqlValue::Text(zone_code@), SqlValue::Text(shelf_code@), SqlValue::Text(level_code@), SqlValue::Text(full_code@), nullable_text(description), optional_int(capacity)]);
        }
        SqlQuery { sql: owned(LOCATION_CREATE), params }
    }
}

/// Each supplied field of a location update sets the column of the same name, and
/// no other field does: a column is among those set exactly when its own field
/// is supplied.
pub proof fn lemma_location_sets_named_columns(c: LocationChanges)
    ensures
        chosen(location_changes_columns(), location_changes_flags(c)).contains("description"@) == c.description,
        chosen(location_changes_columns(), location_changes_flags(c)).contains("capacity"@) == c.capacity,
        chosen(location_changes_columns(), location_changes_flags(c)).contains("is_active"@) == c.is_active,
{
    let cols = location_changes_columns();
    let flags = location_changes_flags(c);
    reveal_strlit("description");
    reveal_strlit("capacity");
    reveal_strlit("is_active");
    assert(cols.len() == 3 && flags.len() == 3);
    assert(cols[0].len() != cols[1].len());
    assert(cols[0].len() != cols[2].len());
    assert(cols[1].len() != cols[2].len());
    assert(cols.no_duplicates());
    lemma_chosen_exactly_flagged(cols, flags, 0);
    assert(cols[0] == "description"@ && flags[0] == c.description);
    lemma_chosen_exactly_flagged(cols, flags, 1);
    assert(cols[1] == "capacity"@ && flags[1] == c.capacity);
    lemma_chosen_exactly_flagged(cols, flags, 2);
    assert(cols[2] == "is_active"@ && flags[2] == c.is_active);
}

} // verus!
