//! Paged listings whose statements are fixed: users, the operation log, stock-count
//! sessions, the ledgers of journal entries, invoices and payments, and the label print
//! log.  Each binds the page size and the offset of the page.
use vstd::prelude::*;

use crate::pipes::store_offset;
use crate::query::{page_offset_fits, page_params, page_tail, ListQuery, SqlParam, SqlQuery, SqlValue, params_view};

verus! {

/// The count of users that are not deleted.
pub const USERS_COUNT: &'static str = "SELECT COUNT(*) FROM users WHERE deleted_at IS NULL";

/// One page of users that are not deleted, by id.
pub const USERS_PAGE: &'static str = "SELECT id, username, display_name, password_hash, email, phone, is_active, created_at, deleted_at\n         FROM users WHERE deleted_at IS NULL ORDER BY id LIMIT ? OFFSET ?";

/// The count of operation log entries.
pub const OPERATION_LOGS_COUNT: &'static str = "SELECT COUNT(*) FROM operation_logs";

/// One page of operation log entries, newest first.
pub const OPERATION_LOGS_PAGE: &'static str = "SELECT id, user_id, action, target_type, target_id, ip_address, created_at\n         FROM operation_logs ORDER BY id DESC LIMIT ? OFFSET ?";

/// The count of stock-count sessions that are not deleted.
pub const CHECK_SESSIONS_COUNT: &'static str = "SELECT COUNT(*) FROM check_records WHERE deleted_at IS NULL";

/// One page of stock-count sessions that are not deleted, newest first.
pub const CHECK_SESSIONS_PAGE: &'static str = "SELECT id, record_no AS session_no, location_id, 'all' AS scope, status,\n                created_by, created_at, updated_at\n         FROM check_records\n         WHERE deleted_at IS NULL\n         ORDER BY id DESC LIMIT ? OFFSET ?";

/// The count of journal entries.
pub const JOURNAL_ENTRIES_COUNT: &'static str = "SELECT COUNT(*) FROM journal_entries";

/// One page of journal entries, newest first.
pub const JOURNAL_ENTRIES_PAGE: &'static str = "SELECT id, entry_no, entry_date, description, status, ref_type, ref_id, created_by, created_at, updated_at FROM journal_entries ORDER BY id DESC LIMIT ? OFFSET ?";

/// The count of invoices.
pub const INVOICES_COUNT: &'static str = "SELECT COUNT(*) FROM invoices";

/// One page of invoices, newest first.
pub const INVOICES_PAGE: &'static str = "SELECT id, invoice_no, invoice_date, party_type, party_id, amount, ref_type, ref_id, status, created_at, updated_at FROM invoices ORDER BY id DESC LIMIT ? OFFSET ?";

/// The count of payments.
pub const PAYMENTS_COUNT: &'static str = "SELECT COUNT(*) FROM payments";

/// One page of payments, newest first.
pub const PAYMENTS_PAGE: &'static str = "SELECT id, payment_no, payment_date, supplier_id, amount, invoice_id, method, notes, created_by, created_at FROM payments ORDER BY id DESC LIMIT ? OFFSET ?";

/// A paged listing with fixed statements: the count binds nothing, the page binds the
/// page size and the offset.
pub fn fixed_page(count_sql: &str, page_sql: &str, page: i64, page_size: i64) -> (r: ListQuery)
    requires
        page_offset_fits(page, page_size),
    ensures
        r.count@.sql == count_sql@,
        r.count@.params == Seq::<SqlValue>::empty(),
        r.list@.sql == page_sql@,
        r.list@.params == page_params(page, page_size),
{
    let none: Vec<SqlParam> = Vec::new();
    proof {
        assert(params_view(none@) =~= Seq::<SqlValue>::empty());
    }
    let count = SqlQuery { sql: String::from_str(count_sql), params: none };
    let list = SqlQuery { sql: String::from_str(page_sql), params: page_tail(page, page_size) };
    ListQuery { count, list }
}

/// One page of users that are not deleted, by id, and their count.
pub fn list_users_query(page: i64, page_size: i64) -> (r: ListQuery)
    requires
        page_offset_fits(page, page_size),
    ensures
        r.count@.sql == USERS_COUNT@,
        r.count@.params == Seq::<SqlValue>::empty(),
        r.list@.sql == USERS_PAGE@,
        r.list@.params == page_params(page, page_size),
{
    fixed_page(USERS_COUNT, USERS_PAGE, page, page_size)
}

/// One page of operation log entries, newest first, and their count.
pub fn list_operation_logs_query(page: i64, page_size: i64) -> (r: ListQuery)
    requires
        page_offset_fits(page, page_size),
    ensures
        r.count@.sql == OPERATION_LOGS_COUNT@,
        r.count@.params == Seq::<SqlValue>::empty(),
        r.list@.sql == OPERATION_LOGS_PAGE@,
        r.list@.params == page_params(page, page_size),
{
    fixed_page(OPERATION_LOGS_COUNT, OPERATION_LOGS_PAGE, page, page_size)
}

/// One page of stock-count sessions that are not deleted, newest first, and their count.
pub fn list_sessions_query(page: i64, page_size: i64) -> (r: ListQuery)
    requires
        page_offset_fits(page, page_size),
    ensures
        r.count@.sql == CHECK_SESSIONS_COUNT@,
        r.count@.params == Seq::<SqlValue>::empty(),
        r.list@.sql == CHECK_SESSIONS_PAGE@,
        r.list@.params == page_params(page, page_size),
{
    fixed_page(CHECK_SESSIONS_COUNT, CHECK_SESSIONS_PAGE, page, page_size)
}

/// One page of journal entries, newest first, and their count.
pub fn list_journal_entries_query(page: i64, page_size: i64) -> (r: ListQuery)
    requires
        page_offset_fits(page, page_size),
    ensures
        r.count@.sql == JOURNAL_ENTRIES_COUNT@,
        r.count@.params == Seq::<SqlValue>::empty(),
        r.list@.sql == JOURNAL_ENTRIES_PAGE@,
        r.list@.params == page_params(page, page_size),
{
    fixed_page(JOURNAL_ENTRIES_COUNT, JOURNAL_ENTRIES_PAGE, page, page_size)
}

/// One page of invoices, newest first, and their count.
pub fn list_invoices_query(page: i64, page_size: i64) -> (r: ListQuery)
    requires
        page_offset_fits(page, page_size),
    ensures
        r.count@.sql == INVOICES_COUNT@,
        r.count@.params == Seq::<SqlValue>::empty(),
        r.list@.sql == INVOICES_PAGE@,
        r.list@.params == page_params(page, page_size),
{
    fixed_page(INVOICES_COUNT, INVOICES_PAGE, page, page_size)
}

/// One page of payments, newest first, and their count.
pub fn list_payments_query(page: i64, page_size: i64) -> (r: ListQuery)
    requires
        page_offset_fits(page, page_size),
    ensures
        r.count@.sql == PAYMENTS_COUNT@,
        r.count@.params == Seq::<SqlValue>::empty(),
        r.list@.sql == PAYMENTS_PAGE@,
        r.list@.params == page_params(page, page_size),
{
    fixed_page(PAYMENTS_COUNT, PAYMENTS_PAGE, page, page_size)
}

/// The count of label print logs.
pub const PRINT_LOGS_COUNT: &'static str = "SELECT COUNT(*) FROM print_logs";

/// One page of label print logs, newest first.
pub const PRINT_LOGS_PAGE: &'static str = "SELECT * FROM print_logs ORDER BY created_at DESC LIMIT ?1 OFFSET ?2";

/// One page of label print logs and their count; the offset is `(page - 1) * page_size`
/// (a page below 1 gives a negative offset, which SQLite reads as none).
pub fn list_print_logs_query(page: i64, page_size: i64) -> (r: ListQuery)
    requires
        page > i64::MIN,
        i64::MIN <= store_offset(page, page_size) <= i64::MAX,
    ensures
        r.count@.sql == PRINT_LOGS_COUNT@,
        r.count@.params == Seq::<SqlValue>::empty(),
        r.list@.sql == PRINT_LOGS_PAGE@,
        r.list@.params == seq![
            SqlValue::Int(page_size),
            SqlValue::Int(store_offset(page, page_size) as i64),
        ],
{
    let none: Vec<SqlParam> = Vec::new();
    proof {
        assert(params_view(none@) =~= Seq::<SqlValue>::empty());
    }
    let offset = (page - 1) * page_size;
    let mut tail: Vec<SqlParam> = Vec::new();
    tail.push(SqlParam::Int(page_size));
    tail.push(SqlParam::Int(offset));
    proof {
        assert(params_view(tail@) =~= seq![
            SqlValue::Int(page_size),
            SqlValue::Int(store_offset(page, page_size) as i64),
        ]);
    }
    let count = SqlQuery { sql: String::from_str(PRINT_LOGS_COUNT), params: none };
    let list = SqlQuery { sql: String::from_str(PRINT_LOGS_PAGE), params: tail };
    ListQuery { count, list }
}

} // verus!
