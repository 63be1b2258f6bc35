//! General ledger, invoices and payments: rows and the account list query.
use vstd::prelude::*;
use crate::query::SqlParam;
use crate::text::owned;
use crate::query::nullable_text;
use crate::query::nullable_param;
use crate::query::optional_int;
use crate::query::optional_int_param;
use crate::query::{
    clause_if, clauses_view, conditions_text, filtered, params_view, text_param, well_bound,
    Conditions, SqlQuery, SqlValue,
};
use crate::sql_text::{
    lemma_a_account_type_eq, lemma_a_is_active, lemma_account_type_eq, lemma_accounts_joined_list,
    lemma_accounts_list, lemma_is_active, lemma_order_by_a_code, lemma_order_by_code,
    ACCOUNTS_JOINED_LIST, ACCOUNTS_LIST, ACCOUNT_TYPE_EQ, A_ACCOUNT_TYPE_EQ, A_IS_ACTIVE,
    IS_ACTIVE, ORDER_BY_A_CODE, ORDER_BY_CODE,
};

verus! {

/// One row of `accounts` with the name of its parent account.
pub struct AccountRow {
    pub id: i64,
    pub code: String,
    pub name: String,
    pub parent_id: Option<i64>,
    pub parent_name: Option<String>,
    pub account_type: String,
    pub is_active: i64,
    pub created_at: String,
}

/// One row of `journal_entries`.
pub struct JournalEntryRow {
    pub id: i64,
    pub entry_no: String,
    pub entry_date: String,
    pub description: Option<String>,
    pub status: String,
    pub ref_type: Option<String>,
    pub ref_id: Option<i64>,
    pub created_by: Option<i64>,
    pub created_at: String,
    pub updated_at: String,
}

/// One row of `journal_entry_lines`; debit and credit are canonical `rust_decimal` text.
pub struct JournalEntryLineRow {
    pub id: i64,
    pub entry_id: i64,
    pub account_id: i64,
    pub debit: String,
    pub credit: String,
    pub description: Option<String>,
    pub created_at: String,
}

/// One row of `invoices`; the amount is canonical `rust_decimal` text.
pub struct InvoiceRow {
    pub id: i64,
    pub invoice_no: String,
    pub invoice_date: String,
    pub party_type: String,
    pub party_id: i64,
    pub amount: String,
    pub ref_type: Option<String>,
    pub ref_id: Option<i64>,
    pub status: String,
    pub created_at: String,
    pub updated_at: String,
}

/// One row of `payments`; the amount is canonical `rust_decimal` text.
pub struct PaymentRow {
    pub id: i64,
    pub payment_no: String,
    pub payment_date: String,
    pub supplier_id: Option<i64>,
    pub amount: String,
    pub invoice_id: Option<i64>,
    pub method: Option<String>,
    pub notes: Option<String>,
    pub created_by: Option<i64>,
    pub created_at: String,
}

/// A journal line of a posted entry, with its account's code and name.
pub struct PostedLineRow {
    pub account_id: i64,
    pub account_code: String,
    pub account_name: String,
    pub debit: String,
    pub credit: String,
}

/// The conditions of the account list: the type, then the active flag.
pub open spec fn account_clauses(account_type: Option<&str>, active_only: bool) -> Seq<Seq<char>> {
    clause_if(account_type is Some, A_ACCOUNT_TYPE_EQ@) + clause_if(active_only, A_IS_ACTIVE@)
}

/// The query of `list_accounts`: accounts with their parent's name, of the given
/// type and only the active ones when asked, by code.
pub fn list_accounts_query(account_type: Option<&str>, active_only: bool) -> (r: SqlQuery)
    ensures
        r@.sql == ACCOUNTS_JOINED_LIST@ + conditions_text(
            account_clauses(account_type, active_only),
            " AND "@,
        ) + ORDER_BY_A_CODE@,
        r@.params == text_param(account_type),
        well_bound(r@),
{
    proof {
        lemma_a_account_type_eq();
        lemma_a_is_active();
        lemma_accounts_joined_list();
        lemma_order_by_a_code();
        crate::query::lemma_and_sep();
    }
    let mut c = Conditions::new();
    proof {
        assert(clauses_view(c.clauses@) =~= Seq::<Seq<char>>::empty());
        assert(params_view(c.params@) =~= Seq::<SqlValue>::empty());
    }
    c.add_text(A_ACCOUNT_TYPE_EQ, account_type);
    c.add_flag(A_IS_ACTIVE, active_only);
    proof {
        assert(clauses_view(c.clauses@) =~= account_clauses(account_type, active_only));
        assert(params_view(c.params@) =~= text_param(account_type));
    }
    filtered(ACCOUNTS_JOINED_LIST, " AND ", c, ORDER_BY_A_CODE)
}

/// The conditions of the plain account list: the type, then the active flag.
pub open spec fn plain_account_clauses(account_type: Option<&str>, active_only: bool) -> Seq<
    Seq<char>,
> {
    clause_if(account_type is Some, ACCOUNT_TYPE_EQ@) + clause_if(active_only, IS_ACTIVE@)
}

/// The query of the account list without parent names: accounts of the given
/// type, only the active ones when asked, by code.
pub fn list_plain_accounts_query(account_type: Option<&str>, active_only: bool) -> (r: SqlQuery)
    ensures
        r@.sql == ACCOUNTS_LIST@ + conditions_text(
            plain_account_clauses(account_type, active_only),
            " AND "@,
        ) + ORDER_BY_CODE@,
        r@.params == text_param(account_type),
        well_bound(r@),
{
    proof {
        lemma_account_type_eq();
        lemma_is_active();
        lemma_accounts_list();
        lemma_order_by_code();
        crate::query::lemma_and_sep();
    }
    let mut c = Conditions::new();
    proof {
        assert(clauses_view(c.clauses@) =~= Seq::<Seq<char>>::empty());
        assert(params_view(c.params@) =~= Seq::<SqlValue>::empty());
    }
    c.add_text(ACCOUNT_TYPE_EQ, account_type);
    c.add_flag(IS_ACTIVE, active_only);
    proof {
        assert(clauses_view(c.clauses@) =~= plain_account_clauses(account_type, active_only));
        assert(params_view(c.params@) =~= text_param(account_type));
    }
    filtered(ACCOUNTS_LIST, " AND ", c, ORDER_BY_CODE)
}

/// Inserts an account.
pub const ACCOUNT_INSERT: &'static str = "INSERT INTO accounts (code, name, parent_id, account_type) VALUES (?, ?, ?, ?)";

/// One account by id, with its parent's name.
pub const ACCOUNT_BY_ID: &'static str = "SELECT a.id, a.code, a.name, a.parent_id, p.name AS parent_name,\n                a.account_type, a.is_active, a.created_at\n         FROM accounts a\n         LEFT JOIN accounts p ON p.id = a.parent_id\n         WHERE a.id = ?";

/// One account by code, with its parent's name.
pub const ACCOUNT_BY_CODE: &'static str = "SELECT a.id, a.code, a.name, a.parent_id, p.name AS parent_name,\n                a.account_type, a.is_active, a.created_at\n         FROM accounts a\n         LEFT JOIN accounts p ON p.id = a.parent_id\n         WHERE a.code = ?";

/// Replaces the fields of an account.
pub const ACCOUNT_UPDATE: &'static str = "UPDATE accounts SET code = ?, name = ?, parent_id = ?, account_type = ? WHERE id = ?";

/// Marks an account inactive.
pub const ACCOUNT_DEACTIVATE: &'static str = "UPDATE accounts SET is_active = 0 WHERE id = ?";

/// Inserts a journal entry (its status starts as the table's default).
pub const JOURNAL_ENTRY_INSERT: &'static str = "INSERT INTO journal_entries (entry_no, entry_date, description, ref_type, ref_id, created_by) VALUES (?, ?, ?, ?, ?, ?)";

/// Inserts one line of a journal entry; debit and credit are decimal text.
pub const JOURNAL_LINE_INSERT: &'static str = "INSERT INTO journal_entry_lines (entry_id, account_id, debit, credit, description) VALUES (?, ?, ?, ?, ?)";

/// One journal entry by id.
pub const JOURNAL_ENTRY_BY_ID: &'static str = "SELECT id, entry_no, entry_date, description, status, ref_type, ref_id, created_by, created_at, updated_at FROM journal_entries WHERE id = ?";

/// The lines of one journal entry, in order.
pub const JOURNAL_LINES_OF_ENTRY: &'static str = "SELECT id, entry_id, account_id, debit, credit, description, created_at FROM journal_entry_lines WHERE entry_id = ? ORDER BY id";

/// Moves a draft journal entry to a new status.
pub const JOURNAL_ENTRY_STATUS: &'static str = "UPDATE journal_entries SET status = ?, updated_at = datetime('now') WHERE id = ? AND status = 'draft'";

/// The lines of posted journal entries with their accounts.
pub const POSTED_LINES: &'static str = "SELECT l.account_id, a.code AS account_code, a.name AS account_name, l.debit, l.credit FROM journal_entry_lines l JOIN journal_entries j ON j.id = l.entry_id JOIN accounts a ON a.id = l.account_id WHERE j.status = 'posted'";

/// Inserts an invoice; the amount is decimal text.
pub const INVOICE_INSERT: &'static str = "INSERT INTO invoices (invoice_no, invoice_date, party_type, party_id, amount, ref_type, ref_id) VALUES (?, ?, ?, ?, ?, ?, ?)";

/// One invoice by id.
pub const INVOICE_BY_ID: &'static str = "SELECT id, invoice_no, invoice_date, party_type, party_id, amount, ref_type, ref_id, status, created_at, updated_at FROM invoices WHERE id = ?";

/// Sets the status of an invoice.
pub const INVOICE_STATUS: &'static str = "UPDATE invoices SET status = ?, updated_at = datetime('now') WHERE id = ?";

/// Inserts a payment; the amount is decimal text.
pub const PAYMENT_INSERT: &'static str = "INSERT INTO payments (payment_no, payment_date, supplier_id, amount, invoice_id, method, notes, created_by) VALUES (?, ?, ?, ?, ?, ?, ?, ?)";

/// One payment by id.
pub const PAYMENT_BY_ID: &'static str = "SELECT id, payment_no, payment_date, supplier_id, amount, invoice_id, method, notes, created_by, created_at FROM payments WHERE id = ?";

/// The amounts paid against one invoice, as decimal text.
pub const INVOICE_PAID_AMOUNTS: &'static str = "SELECT amount FROM payments WHERE invoice_id = ?";

/// Creates account `code` named `name` of type `account_type` under `parent_id`; the caller reads it back by the new row id.
pub fn insert_account_query(code: &str, name: &str, parent_id: Option<i64>, account_type: &str) -> (r: SqlQuery)
    ensures
        r@.sql == ACCOUNT_INSERT@,
        r@.params == seq![SqlValue::Text(code@), SqlValue::Text(name@), optional_int(parent_id), SqlValue::Text(account_type@)],
{
    let mut params: Vec<SqlParam> = Vec::new();
    params.push(SqlParam::Text(owned(code)));
    params.push(SqlParam::Text(owned(name)));
    params.push(optional_int_param(parent_id));
    params.push(SqlParam::Text(owned(account_type)));
    proof {
        assert(params_view(params@) =~= seq![SqlValue::Text(code@), SqlValue::Text(name@), optional_int(parent_id), SqlValue::Text(account_type@)]);
    }
    SqlQuery { sql: owned(ACCOUNT_INSERT), params }
}

/// Finds account `id` with the name of its parent.
pub fn find_account_by_id_query(id: i64) -> (r: SqlQuery)
    ensures
        r@.sql == ACCOUNT_BY_ID@,
        r@.params == seq![SqlValue::Int(id)],
{
    let mut params: Vec<SqlParam> = Vec::new();
    params.push(SqlParam::Int(id));
    proof {
        assert(params_view(params@) =~= seq![SqlValue::Int(id)]);
    }
    SqlQuery { sql: owned(ACCOUNT_BY_ID), params }
}

/// Finds the account with code `code` and the name of its parent.
pub fn find_account_by_code_query(code: &str) -> (r: SqlQuery)
    ensures
        r@.sql == ACCOUNT_BY_CODE@,
        r@.params == seq![SqlValue::Text(code@)],
{
    let mut params: Vec<SqlParam> = Vec::new();
    params.push(SqlParam::Text(owned(code)));
    proof {
        assert(params_view(params@) =~= seq![SqlValue::Text(code@)]);
    }
    SqlQuery { sql: owned(ACCOUNT_BY_CODE), params }
}

/// Sets code, name, parent and type of account `id`; no row changed means it was not found.
pub fn update_account_query(code: &str, name: &str, parent_id: Option<i64>, account_type: &str, id: i64) -> (r: SqlQuery)
    ensures
        r@.sql == ACCOUNT_UPDATE@,
        r@.params == seq![SqlValue::Text(code@), SqlValue::Text(name@), optional_int(parent_id), SqlValue::Text(account_type@), SqlValue::Int(id)],
{
    let mut params: Vec<SqlParam> = Vec::new();
    params.push(SqlParam::Text(owned(code)));
    params.push(SqlParam::Text(owned(name)));
    params.push(optional_int_param(parent_id));
    params.push(SqlParam::Text(owned(account_type)));
    params.push(SqlParam::Int(id));
    proof {
        assert(params_view(params@) =~= seq![SqlValue::Text(code@), SqlValue::Text(name@), optional_int(parent_id), SqlValue::Text(account_type@), SqlValue::Int(id)]);
    }
    SqlQuery { sql: owned(ACCOUNT_UPDATE), params }
}

/// Marks account `id` inactive; no row changed means it was not found.
pub fn deactivate_account_query(id: i64) -> (r: SqlQuery)
    ensures
        r@.sql == ACCOUNT_DEACTIVATE@,
        r@.params == seq![SqlValue::Int(id)],
{
    let mut params: Vec<SqlParam> = Vec::new();
    params.push(SqlParam::Int(id));
    proof {
        assert(params_view(params@) =~= seq![SqlValue::Int(id)]);
    }
    SqlQuery { sql: owned(ACCOUNT_DEACTIVATE), params }
}

/// Creates journal entry `entry_no` dated `entry_date`, made by `created_by`.
pub fn insert_journal_entry_query(entry_no: &str, entry_date: &str, description: Option<&str>, ref_type: Option<&str>, ref_id: Option<i64>, created_by: i64) -> (r: SqlQuery)
    ensures
        r@.sql == JOURNAL_ENTRY_INSERT@,
        r@.params == seq![SqlValue::Text(entry_no@), SqlValue::Text(entry_date@), nullable_text(description), nullable_text(ref_type), optional_int(ref_id), SqlValue::Int(created_by)],
{
    let mut params: Vec<SqlParam> = Vec::new();
    params.push(SqlParam::Text(owned(entry_no)));
    params.push(SqlParam::Text(owned(entry_date)));
    params.push(nullable_param(description));
    params.push(nullable_param(ref_type));
    params.push(optional_int_param(ref_id));
    params.push(SqlParam::Int(created_by));
    proof {
        assert(params_view(params@) =~= seq![SqlValue::Text(entry_no@), SqlValue::Text(entry_date@), nullable_text(description), nullable_text(ref_type), optional_int(ref_id), SqlValue::Int(created_by)]);
    }
    SqlQuery { sql: owned(JOURNAL_ENTRY_INSERT), params }
}

/// Adds a line to entry `entry_id` on account `account_id` with the given debit and credit texts.
pub fn insert_journal_entry_line_query(entry_id: i64, account_id: i64, debit: &str, credit: &str, description: Option<&str>) -> (r: SqlQuery)
    ensures
        r@.sql == JOURNAL_LINE_INSERT@,
        r@.params == seq![SqlValue::Int(entry_id), SqlValue::Int(account_id), SqlValue::Text(debit@), SqlValue::Text(credit@), nullable_text(description)],
{
    let mut params: Vec<SqlParam> = Vec::new();
    params.push(SqlParam::Int(entry_id));
    params.push(SqlParam::Int(account_id));
    params.push(SqlParam::Text(owned(debit)));
    params.push(SqlParam::Text(owned(credit)));
    params.push(nullable_param(description));
    proof {
        assert(params_view(params@) =~= seq![SqlValue::Int(entry_id), SqlValue::Int(account_id), SqlValue::Text(debit@), SqlValue::Text(credit@), nullable_text(description)]);
    }
    SqlQuery { sql: owned(JOURNAL_LINE_INSERT), params }
}

/// Finds journal entry `id`.
pub fn find_journal_entry_by_id_query(id: i64) -> (r: SqlQuery)
    ensures
        r@.sql == JOURNAL_ENTRY_BY_ID@,
        r@.params == seq![SqlValue::Int(id)],
{
    let mut params: Vec<SqlParam> = Vec::new();
    params.push(SqlParam::Int(id));
    proof {
        assert(params_view(params@) =~= seq![SqlValue::Int(id)]);
    }
    SqlQuery { sql: owned(JOURNAL_ENTRY_BY_ID), params }
}

/// The lines of journal entry `entry_id`, in order.
pub fn find_lines_for_entry_query(entry_id: i64) -> (r: SqlQuery)
    ensures
        r@.sql == JOURNAL_LINES_OF_ENTRY@,
        r@.params == seq![SqlValue::Int(entry_id)],
{
    let mut params: Vec<SqlParam> = Vec::new();
    params.push(SqlParam::Int(entry_id));
    proof {
        assert(params_view(params@) =~= seq![SqlValue::Int(entry_id)]);
    }
    SqlQuery { sql: owned(JOURNAL_LINES_OF_ENTRY), params }
}

/// Sets the status of journal entry `id` while it is a draft; no row changed means it was not found or not a draft.
pub fn update_journal_entry_status_query(status: &str, id: i64) -> (r: SqlQuery)
    ensures
        r@.sql == JOURNAL_ENTRY_STATUS@,
        r@.params == seq![SqlValue::Text(status@), SqlValue::Int(id)],
{
    let mut params: Vec<SqlParam> = Vec::new();
    params.push(SqlParam::Text(owned(status)));
    params.push(SqlParam::Int(id));
    proof {
        assert(params_view(params@) =~= seq![SqlValue::Text(status@), SqlValue::Int(id)]);
    }
    SqlQuery { sql: owned(JOURNAL_ENTRY_STATUS), params }
}

/// The lines of all posted journal entries, each with the code and name of its account.
pub fn posted_lines_query() -> (r: SqlQuery)
    ensures
        r@.sql == POSTED_LINES@,
        r@.params.len() == 0,
{
    let mut params: Vec<SqlParam> = Vec::new();
    SqlQuery { sql: owned(POSTED_LINES), params }
}

/// Creates invoice `invoice_no`; the caller reads it back by the new row id.
pub fn insert_invoice_query(invoice_no: &str, invoice_date: &str, party_type: &str, party_id: i64, amount: &str, ref_type: Option<&str>, ref_id: Option<i64>) -> (r: SqlQuery)
    ensures
        r@.sql == INVOICE_INSERT@,
        r@.params == seq![SqlValue::Text(invoice_no@), SqlValue::Text(invoice_date@), SqlValue::Text(party_type@), SqlValue::Int(party_id), SqlValue::Text(amount@), nullable_text(ref_type), optional_int(ref_id)],
{
    let mut params: Vec<SqlParam> = Vec::new();
    params.push(SqlParam::Text(owned(invoice_no)));
    params.push(SqlParam::Text(owned(invoice_date)));
    params.push(SqlParam::Text(owned(party_type)));
    params.push(SqlParam::Int(party_id));
    params.push(SqlParam::Text(owned(amount)));
    params.push(nullable_param(ref_type));
    params.push(optional_int_param(ref_id));
    proof {
        assert(params_view(params@) =~= seq![SqlValue::Text(invoice_no@), SqlValue::Text(invoice_date@), SqlValue::Text(party_type@), SqlValue::Int(party_id), SqlValue::Text(amount@), nullable_text(ref_type), optional_int(ref_id)]);
    }
    SqlQuery { sql: owned(INVOICE_INSERT), params }
}

/// Finds invoice `id`.
pub fn find_invoice_by_id_query(id: i64) -> (r: SqlQuery)
    ensures
        r@.sql == INVOICE_BY_ID@,
        r@.params == seq![SqlValue::Int(id)],
{
    let mut params: Vec<SqlParam> = Vec::new();
    params.push(SqlParam::Int(id));
    proof {
        assert(params_view(params@) =~= seq![SqlValue::Int(id)]);
    }
    SqlQuery { sql: owned(INVOICE_BY_ID), params }
}

/// Sets the status of invoice `id`; no row changed means it was not found.
pub fn update_invoice_status_query(status: &str, id: i64) -> (r: SqlQuery)
    ensures
        r@.sql == INVOICE_STATUS@,
        r@.params == seq![SqlValue::Text(status@), SqlValue::Int(id)],
{
    let mut params: Vec<SqlParam> = Vec::new();
    params.push(SqlParam::Text(owned(status)));
    params.push(SqlParam::Int(id));
    proof {
        assert(params_view(params@) =~= seq![SqlValue::Text(status@), SqlValue::Int(id)]);
    }
    SqlQuery { sql: owned(INVOICE_STATUS), params }
}

/// Records payment `payment_no` made by user `user_id`.
pub fn insert_payment_query(payment_no: &str, payment_date: &str, supplier_id: Option<i64>, amount: &str, invoice_id: Option<i64>, method: Option<&str>, notes: Option<&str>, user_id: i64) -> (r: SqlQuery)
    ensures
        r@.sql == PAYMENT_INSERT@,
        r@.params == seq![SqlValue::Text(payment_no@), SqlValue::Text(payment_date@), optional_int(supplier_id), SqlValue::Text(amount@), optional_int(invoice_id), nullable_text(method), nullable_text(notes), SqlValue::Int(user_id)],
{
    let mut params: Vec<SqlParam> = Vec::new();
    params.push(SqlParam::Text(owned(payment_no)));
    params.push(SqlParam::Text(owned(payment_date)));
    params.push(optional_int_param(supplier_id));
    params.push(SqlParam::Text(owned(amount)));
    params.push(optional_int_param(invoice_id));
    params.push(nullable_param(method));
    params.push(nullable_param(notes));
    params.push(SqlParam::Int(user_id));
    proof {
        assert(params_view(params@) =~= seq![SqlValue::Text(payment_no@), SqlValue::Text(payment_date@), optional_int(supplier_id), SqlValue::Text(amount@), optional_int(invoice_id), nullable_text(method), nullable_text(notes), SqlValue::Int(user_id)]);
    }
    SqlQuery { sql: owned(PAYMENT_INSERT), params }
}

/// Finds payment `id`.
pub fn find_payment_by_id_query(id: i64) -> (r: SqlQuery)
    ensures
        r@.sql == PAYMENT_BY_ID@,
        r@.params == seq![SqlValue::Int(id)],
{
    let mut params: Vec<SqlParam> = Vec::new();
    params.push(SqlParam::Int(id));
    proof {
        assert(params_view(params@) =~= seq![SqlValue::Int(id)]);
    }
    SqlQuery { sql: owned(PAYMENT_BY_ID), params }
}

/// The amounts of the payments against invoice `invoice_id`; they are summed by `money::sum_amount_texts`.
pub fn paid_amounts_for_invoice_query(invoice_id: i64) -> (r: SqlQuery)
    ensures
        r@.sql == INVOICE_PAID_AMOUNTS@,
        r@.params == seq![SqlValue::Int(invoice_id)],
{
    let mut params: Vec<SqlParam> = Vec::new();
    params.push(SqlParam::Int(invoice_id));
    proof {
        assert(params_view(params@) =~= seq![SqlValue::Int(invoice_id)]);
    }
    SqlQuery { sql: owned(INVOICE_PAID_AMOUNTS), params }
}

} // verus!
