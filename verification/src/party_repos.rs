//! Suppliers and customers of the pipe business: their lists and their updates.
use vstd::prelude::*;
use crate::updates::{lemma_chosen_exactly_flagged};
use crate::query::{nullable_param, nullable_text};
use crate::query::SqlQuery;
use crate::text::owned;
use crate::numbering::{int_text, push_i64};
use crate::paging::SortOrder;
use crate::pipes::has_text;
use crate::quality::lemma_listed_plain;
use crate::query::{
    clause_if, clauses_view, conditions_text, params_view, well_bound, Conditions, ListQuery,
    SqlParam, SqlValue,
};
use crate::listing::{order_suffix, plain_page, text_page};
use crate::repo_text::{lemma_col_created_at, lemma_not_deleted, COL_CREATED_AT, LIMIT_OFFSET, NOT_DELETED};
use crate::sorting::{key_view, lookup_column, pick_column, table_view};
use crate::text::{count_char, count_upto, join_with, like_contains, strings_view};
use crate::updates::{appended_sets, appended_update, chosen, names_view, UpdatePlan};

verus! {

/// Suppliers (`suppliers`).
pub struct SupplierRepo;

/// Customers (`customers`).
pub struct CustomerRepo;

/// Counts suppliers; the conditions follow.
pub const SUPPLIER_COUNT_HEAD: &'static str = "SELECT COUNT(*) as cnt FROM suppliers WHERE ";

/// `SUPPLIER_COUNT_HEAD` holds 0 placeholders.
pub proof fn lemma_supplier_count_head()
    ensures
        count_char(SUPPLIER_COUNT_HEAD@, '?') == 0,
{
    reveal_strlit("SELECT COUNT(*) as cnt FROM suppliers WHERE ");
    reveal_with_fuel(count_upto, 41);
    let s = SUPPLIER_COUNT_HEAD@;
    assert(count_upto(s, '?', 40) == 0);
    assert(s.len() == 44);
}

/// Selects suppliers; the conditions follow.
pub const SUPPLIER_ROWS_HEAD: &'static str = "SELECT id, supplier_code, name, contact_person, phone, email, address, is_active, notes, created_at, updated_at, deleted_at FROM suppliers WHERE ";

/// `SUPPLIER_ROWS_HEAD` holds 0 placeholders.
pub proof fn lemma_supplier_rows_head()
    ensures
        count_char(SUPPLIER_ROWS_HEAD@, '?') == 0,
{
    reveal_strlit("SELECT id, supplier_code, name, contact_person, phone, email, address, is_active, notes, created_at, updated_at, deleted_at FROM suppliers WHERE ");
    reveal_with_fuel(count_upto, 41);
    let s = SUPPLIER_ROWS_HEAD@;
    assert(count_upto(s, '?', 40) == 0);
    assert(count_upto(s, '?', 80) == 0);
    assert(count_upto(s, '?', 120) == 0);
    assert(s.len() == 145);
}

/// Name, code or contact matches a pattern.
pub const SUPPLIER_SEARCH: &'static str = "(name LIKE ? OR supplier_code LIKE ? OR contact_person LIKE ?)";

/// `SUPPLIER_SEARCH` holds 3 placeholders.
pub proof fn lemma_supplier_search()
    ensures
        count_char(SUPPLIER_SEARCH@, '?') == 3,
{
    reveal_strlit("(name LIKE ? OR supplier_code LIKE ? OR contact_person LIKE ?)");
    reveal_with_fuel(count_upto, 41);
    let s = SUPPLIER_SEARCH@;
    assert(count_upto(s, '?', 40) == 2);
    assert(s.len() == 62);
}

/// Filter condition `is_active = ?`.
pub const IS_ACTIVE_EQ: &'static str = "is_active = ?";

/// `IS_ACTIVE_EQ` holds 1 placeholder.
pub proof fn lemma_is_active_eq()
    ensures
        count_char(IS_ACTIVE_EQ@, '?') == 1,
{
    reveal_strlit("is_active = ?");
    reveal_with_fuel(count_upto, 41);
    let s = IS_ACTIVE_EQ@;
    assert(s.len() == 13);
}

/// Sort column `supplier_code`.
pub const COL_SUPPLIER_CODE: &'static str = "supplier_code";

/// `COL_SUPPLIER_CODE` holds 0 placeholders.
pub proof fn lemma_col_supplier_code()
    ensures
        count_char(COL_SUPPLIER_CODE@, '?') == 0,
{
    reveal_strlit("supplier_code");
    reveal_with_fuel(count_upto, 41);
    let s = COL_SUPPLIER_CODE@;
    assert(s.len() == 13);
}

/// Sort column `name`.
pub const COL_NAME: &'static str = "name";

/// `COL_NAME` holds 0 placeholders.
pub proof fn lemma_col_name()
    ensures
        count_char(COL_NAME@, '?') == 0,
{
    reveal_strlit("name");
    reveal_with_fuel(count_upto, 41);
    let s = COL_NAME@;
    assert(s.len() == 4);
}

/// Starts an update of a supplier.
pub const SUPPLIER_UPDATE_HEAD: &'static str = "UPDATE suppliers SET updated_at = datetime('now')";

/// Ends an update of one supplier by id and returns its columns.
pub const SUPPLIER_UPDATE_TAIL: &'static str = " WHERE id = ? AND deleted_at IS NULL RETURNING id, supplier_code, name, contact_person, phone, email, address, is_active, notes, created_at, updated_at, deleted_at";

/// Counts customers; the conditions follow.
pub const CUSTOMER_COUNT_HEAD: &'static str = "SELECT COUNT(*) as cnt FROM customers WHERE ";

/// Selects customers; the conditions follow.
pub const CUSTOMER_ROWS_HEAD: &'static str = "SELECT id, customer_code, name, contact_person, phone, email, address, is_active, notes, created_at, updated_at, deleted_at FROM customers WHERE ";

/// The customer search up to the number of its first placeholder.
pub const CUSTOMER_SEARCH_NAME: &'static str = "(name LIKE $";

/// The customer search's code test up to its placeholder number.
pub const CUSTOMER_SEARCH_CODE: &'static str = " OR customer_code LIKE $";

/// The customer search's contact test up to its placeholder number.
pub const CUSTOMER_SEARCH_CONTACT: &'static str = " OR contact_person LIKE $";

/// Closes a parenthesis.
pub const CLOSE_PAREN: &'static str = ")";

/// Active customers.
pub const ACTIVE_TRUE: &'static str = "is_active = TRUE";

/// Inactive customers.
pub const ACTIVE_FALSE: &'static str = "is_active = FALSE";

/// A page size placeholder up to its number.
pub const LIMIT_DOLLAR: &'static str = " LIMIT $";

/// An offset placeholder up to its number.
pub const OFFSET_DOLLAR: &'static str = " OFFSET $";

/// Starts an update of a customer.
pub const CUSTOMER_UPDATE_HEAD: &'static str = "UPDATE customers SET updated_at = NOW()";

/// Ends an update of one customer by id and returns its columns.
pub const CUSTOMER_UPDATE_TAIL: &'static str = " WHERE id = ? AND deleted_at IS NULL RETURNING id, customer_code, name, contact_person, phone, email, address, is_active, notes, created_at, updated_at, deleted_at";

/// The filters of the supplier list.
pub struct SupplierListFilter {
    pub q: Option<String>,
    pub is_active: Option<bool>,
}

/// The conditions of the supplier list.
pub open spec fn supplier_clauses(f: SupplierListFilter) -> Seq<Seq<char>> {
    seq![NOT_DELETED@] + clause_if(has_text(f.q), SUPPLIER_SEARCH@) + clause_if(
        f.is_active is Some,
        IS_ACTIVE_EQ@,
    )
}

/// `1` for true, `0` for false.
pub open spec fn flag_text(b: bool) -> Seq<char> {
    if b {
        "1"@
    } else {
        "0"@
    }
}

/// The values bound to the supplier conditions: `%q%` three times, then the
/// activity flag as `1` or `0`.
pub open spec fn supplier_params(f: SupplierListFilter) -> Seq<SqlValue> {
    (if has_text(f.q) {
        let p = SqlValue::Text(seq!['%'] + f.q.unwrap()@ + seq!['%']);
        seq![p, p, p]
    } else {
        Seq::empty()
    }) + (match f.is_active {
        Some(b) => seq![SqlValue::Text(flag_text(b))],
        None => Seq::empty(),
    })
}

/// Sort keys of the supplier list, each naming its own column.
pub open spec fn supplier_sort_view() -> Seq<(Seq<char>, Seq<char>)> {
    seq![
        (COL_SUPPLIER_CODE@, COL_SUPPLIER_CODE@),
        (COL_NAME@, COL_NAME@),
        (COL_CREATED_AT@, COL_CREATED_AT@),
    ]
}

fn supplier_conditions(f: &SupplierListFilter) -> (r: Conditions)
    ensures
        clauses_view(r.clauses@) == supplier_clauses(*f),
        params_view(r.params@) == supplier_params(*f),
        r.wf(),
{
    proof {
        lemma_not_deleted();
        lemma_supplier_search();
        lemma_is_active_eq();
    }
    let mut c = Conditions::new();
    c.push_plain(NOT_DELETED);
    match &f.q {
        Some(q) => {
            if q.unicode_len() > 0 {
                c.push3(
                    SUPPLIER_SEARCH,
                    SqlParam::Text(like_contains(q.as_str())),
                    SqlParam::Text(like_contains(q.as_str())),
                    SqlParam::Text(like_contains(q.as_str())),
                );
            }
        },
        None => {},
    }
    let ghost c1 = clauses_view(c.clauses@);
    let ghost p1 = params_view(c.params@);
    proof {
        assert(c1 =~= seq![NOT_DELETED@] + clause_if(has_text(f.q), SUPPLIER_SEARCH@));
    }
    match f.is_active {
        Some(b) => {
            let v = if b {
                String::from_str("1")
            } else {
                String::from_str("0")
            };
            c.push1(IS_ACTIVE_EQ, SqlParam::Text(v));
        },
        None => {},
    }
    proof {
        assert(clauses_view(c.clauses@) =~= supplier_clauses(*f));
        assert(params_view(c.params@) =~= supplier_params(*f));
    }
    c
}

impl SupplierRepo {
    /// The counting and page statements of the supplier list: suppliers not
    /// deleted, a non-empty search text matching name, code or contact, the
    /// activity filter when given, ordered by the requested column (or
    /// `created_at`), one page.
    pub fn list_query(
        filter: &SupplierListFilter,
        sort_by: Option<&str>,
        order: SortOrder,
        page_size: i64,
        offset: i64,
    ) -> (r: ListQuery)
        ensures
            r.count@.sql == SUPPLIER_COUNT_HEAD@ + conditions_text(supplier_clauses(*filter), ""@),
            r.count@.params == supplier_params(*filter),
            r.list@.sql == SUPPLIER_ROWS_HEAD@ + conditions_text(supplier_clauses(*filter), ""@)
                + order_suffix(
                lookup_column(key_view(sort_by), supplier_sort_view(), COL_CREATED_AT@),
                order,
                LIMIT_OFFSET@,
            ),
            r.list@.params == supplier_params(*filter) + seq![
                SqlValue::Int(page_size),
                SqlValue::Int(offset),
            ],
            well_bound(r.count@),
            well_bound(r.list@),
    {
        let a = supplier_conditions(filter);
        let b = supplier_conditions(filter);
        proof {
            lemma_col_supplier_code();
            lemma_col_name();
            lemma_col_created_at();
        }
        let keys = vec![
            (COL_SUPPLIER_CODE, COL_SUPPLIER_CODE),
            (COL_NAME, COL_NAME),
            (COL_CREATED_AT, COL_CREATED_AT),
        ];
        proof {
            assert(table_view(keys@) =~= supplier_sort_view());
        }
        let col = pick_column(sort_by, &keys, COL_CREATED_AT);
        proof {
            lemma_listed_plain(col@, keys@, COL_CREATED_AT@);
            lemma_supplier_count_head();
            lemma_supplier_rows_head();
        }
        plain_page(SUPPLIER_COUNT_HEAD, SUPPLIER_ROWS_HEAD, a, b, col, order, page_size, offset)
    }
}

/// Which fields of a supplier update carry a new value.
pub struct SupplierChanges {
    pub name: bool,
    pub contact_person: bool,
    pub phone: bool,
    pub email: bool,
    pub address: bool,
    pub is_active: bool,
    pub notes: bool,
}

/// The columns a supplier update may set, in the order it sets them.
pub open spec fn supplier_changes_columns() -> Seq<Seq<char>> {
    seq!["name"@, "contact_person"@, "phone"@, "email"@, "address"@, "is_active"@, "notes"@]
}

/// The presence flags of a supplier update in column order.
pub open spec fn supplier_changes_flags(c: SupplierChanges) -> Seq<bool> {
    seq![c.name, c.contact_person, c.phone, c.email, c.address, c.is_active, c.notes]
}

impl SupplierRepo {
    /// The update of one row by id: `updated_at` is always reset, each supplied
    /// field is set, and the row comes back.  The new values are bound in the order
    /// of `columns`, then the id.
    pub fn update_plan(changes: &SupplierChanges) -> (r: UpdatePlan)
        ensures
            names_view(r.columns@) == chosen(supplier_changes_columns(), supplier_changes_flags(*changes)),
            r.sql@ == SUPPLIER_UPDATE_HEAD@ + appended_sets(chosen(supplier_changes_columns(), supplier_changes_flags(*changes))) + SUPPLIER_UPDATE_TAIL@,
    {
        let names: Vec<&'static str> = vec!["name", "contact_person", "phone", "email", "address", "is_active", "notes"];
        let flags: Vec<bool> = vec![changes.name, changes.contact_person, changes.phone, changes.email, changes.address, changes.is_active, changes.notes];
        proof {
            assert(names_view(names@) =~= supplier_changes_columns());
            assert(flags@ =~= supplier_changes_flags(*changes));
        }
        appended_update(SUPPLIER_UPDATE_HEAD, &names, &flags, SUPPLIER_UPDATE_TAIL)
    }
}

/// The filters of the customer list.
pub struct CustomerListFilter {
    pub q: Option<String>,
    pub is_active: Option<bool>,
}

/// The customer search with its placeholders `$1`, `$2`, `$3`.
pub open spec fn customer_search() -> Seq<char> {
    CUSTOMER_SEARCH_NAME@ + int_text(1) + CUSTOMER_SEARCH_CODE@ + int_text(2)
        + CUSTOMER_SEARCH_CONTACT@ + int_text(3) + CLOSE_PAREN@
}

/// The conditions of the customer list; the activity filter is written into the
/// statement.
pub open spec fn customer_clauses(f: CustomerListFilter) -> Seq<Seq<char>> {
    seq![NOT_DELETED@] + clause_if(has_text(f.q), customer_search()) + (match f.is_active {
        Some(true) => seq![ACTIVE_TRUE@],
        Some(false) => seq![ACTIVE_FALSE@],
        None => Seq::empty(),
    })
}

/// The values bound to the customer conditions: `%q%` three times.
pub open spec fn customer_params(f: CustomerListFilter) -> Seq<SqlValue> {
    if has_text(f.q) {
        let p = SqlValue::Text(seq!['%'] + f.q.unwrap()@ + seq!['%']);
        seq![p, p, p]
    } else {
        Seq::empty()
    }
}

/// The page of the customer list, numbered after the `bound` filter values.
pub open spec fn customer_page(bound: int) -> Seq<char> {
    LIMIT_DOLLAR@ + int_text(bound + 1) + OFFSET_DOLLAR@ + int_text(bound + 2)
}

/// Sort keys of the customer list, each naming its own column.
pub open spec fn customer_sort_view() -> Seq<(Seq<char>, Seq<char>)> {
    seq![("customer_code"@, "customer_code"@), ("name"@, "name"@), ("created_at"@, "created_at"@)]
}

impl CustomerRepo {
    /// The counting and page statements of the customer list: customers not
    /// deleted, a non-empty search text matching name, code or contact through
    /// `$1`..`$3`, the activity filter written in, ordered by the requested column
    /// (or `created_at`), then the page size and offset numbered after the search
    /// values.
    pub fn list_query(
        filter: &CustomerListFilter,
        sort_by: Option<&str>,
        order: SortOrder,
        page_size: i64,
        offset: i64,
    ) -> (r: ListQuery)
        ensures
            r.count@.sql == CUSTOMER_COUNT_HEAD@ + join_with(customer_clauses(*filter), " AND "@),
            r.count@.params == customer_params(*filter),
            r.list@.sql == CUSTOMER_ROWS_HEAD@ + join_with(customer_clauses(*filter), " AND "@)
                + order_suffix(
                lookup_column(key_view(sort_by), customer_sort_view(), "created_at"@),
                order,
                customer_page(customer_params(*filter).len() as int),
            ),
            r.list@.params == customer_params(*filter) + seq![
                SqlValue::Int(page_size),
                SqlValue::Int(offset),
            ],
    {
        let mut conds: Vec<String> = Vec::new();
        let mut params: Vec<SqlParam> = Vec::new();
        conds.push(String::from_str(NOT_DELETED));
        match &filter.q {
            Some(q) => {
                if q.unicode_len() > 0 {
                    let mut c = String::from_str(CUSTOMER_SEARCH_NAME);
                    push_i64(&mut c, 1);
                    c.append(CUSTOMER_SEARCH_CODE);
                    push_i64(&mut c, 2);
                    c.append(CUSTOMER_SEARCH_CONTACT);
                    push_i64(&mut c, 3);
                    c.append(CLOSE_PAREN);
                    conds.push(c);
                    params.push(SqlParam::Text(like_contains(q.as_str())));
                    params.push(SqlParam::Text(like_contains(q.as_str())));
                    params.push(SqlParam::Text(like_contains(q.as_str())));
                }
            },
            None => {},
        }
        let ghost c1 = strings_view(conds@);
        proof {
            assert(c1 =~= seq![NOT_DELETED@] + clause_if(has_text(filter.q), customer_search()));
            assert(params_view(params@) =~= customer_params(*filter));
        }
        match filter.is_active {
            Some(b) => {
                if b {
                    conds.push(String::from_str(ACTIVE_TRUE));
                } else {
                    conds.push(String::from_str(ACTIVE_FALSE));
                }
            },
            None => {},
        }
        proof {
            assert(strings_view(conds@) =~= customer_clauses(*filter));
        }
        let keys = vec![("customer_code", "customer_code"), ("name", "name"), ("created_at", "created_at")];
        proof {
            assert(table_view(keys@) =~= customer_sort_view());
        }
        let col = pick_column(sort_by, &keys, "created_at");
        let n = params.len();
        let mut tail = String::from_str(LIMIT_DOLLAR);
        push_i64(&mut tail, (n + 1) as i64);
        tail.append(OFFSET_DOLLAR);
        push_i64(&mut tail, (n + 2) as i64);
        let mut page: Vec<SqlParam> = Vec::new();
        page.push(SqlParam::Int(page_size));
        page.push(SqlParam::Int(offset));
        proof {
            assert(tail@ =~= customer_page(customer_params(*filter).len() as int));
            assert(params_view(page@) =~= seq![SqlValue::Int(page_size), SqlValue::Int(offset)]);
        }
        text_page(CUSTOMER_COUNT_HEAD, CUSTOMER_ROWS_HEAD, &conds, &params, col, order, tail.as_str(), &page)
    }
}

/// Which fields of a customer update carry a new value.
pub struct CustomerChanges {
    pub name: bool,
    pub contact_person: bool,
    pub phone: bool,
    pub email: bool,
    pub address: bool,
    pub is_active: bool,
    pub notes: bool,
}

/// The columns a customer update may set, in the order it sets them.
pub open spec fn customer_changes_columns() -> Seq<Seq<char>> {
    seq!["name"@, "contact_person"@, "phone"@, "email"@, "address"@, "is_active"@, "notes"@]
}

/// The presence flags of a customer update in column order.
pub open spec fn customer_changes_flags(c: CustomerChanges) -> Seq<bool> {
    seq![c.name, c.contact_person, c.phone, c.email, c.address, c.is_active, c.notes]
}

impl CustomerRepo {
    /// The update of one row by id: `updated_at` is always reset, each supplied
    /// field is set, and the row comes back.  The new values are bound in the order
    /// of `columns`, then the id.
    pub fn update_plan(changes: &CustomerChanges) -> (r: UpdatePlan)
        ensures
            names_view(r.columns@) == chosen(customer_changes_columns(), customer_changes_flags(*changes)),
            r.sql@ == CUSTOMER_UPDATE_HEAD@ + appended_sets(chosen(customer_changes_columns(), customer_changes_flags(*changes))) + CUSTOMER_UPDATE_TAIL@,
    {
        let names: Vec<&'static str> = vec!["name", "contact_person", "phone", "email", "address", "is_active", "notes"];
        let flags: Vec<bool> = vec![changes.name, changes.contact_person, changes.phone, changes.email, changes.address, changes.is_active, changes.notes];
        proof {
            assert(names_view(names@) =~= customer_changes_columns());
            assert(flags@ =~= customer_changes_flags(*changes));
        }
        appended_update(CUSTOMER_UPDATE_HEAD, &names, &flags, CUSTOMER_UPDATE_TAIL)
    }
}

/// Finds live supplier `id`.
pub const SUPPLIER_FIND_BY_ID: &'static str = "SELECT id, supplier_code, name, contact_person, phone, email, address, is_active, notes, created_at, updated_at, deleted_at FROM suppliers WHERE id = ? AND deleted_at IS NULL";

/// Finds the live supplier with code `code`.
pub const SUPPLIER_FIND_BY_CODE: &'static str = "SELECT id, supplier_code, name, contact_person, phone, email, address, is_active, notes, created_at, updated_at, deleted_at FROM suppliers WHERE supplier_code = ? AND deleted_at IS NULL";

/// Soft-deletes supplier `id`.
pub const SUPPLIER_DELETE: &'static str = "UPDATE suppliers SET deleted_at = datetime('now'), updated_at = datetime('now') WHERE id = ? AND deleted_at IS NULL";

/// The live active suppliers, by name.
pub const SUPPLIER_FIND_ALL_ACTIVE: &'static str = "SELECT id, supplier_code, name, contact_person, phone, email, address, is_active, notes, created_at, updated_at, deleted_at FROM suppliers WHERE deleted_at IS NULL AND is_active = 1 ORDER BY name ASC";

impl SupplierRepo {
    /// Finds live supplier `id`.
    pub fn find_by_id_query(id: i64) -> (r: SqlQuery)
        ensures
            r@.sql == SUPPLIER_FIND_BY_ID@,
            r@.params == seq![SqlValue::Int(id)],
    {
        let mut params: Vec<SqlParam> = Vec::new();
        params.push(SqlParam::Int(id));
        proof {
            assert(params_view(params@) =~= seq![SqlValue::Int(id)]);
        }
        SqlQuery { sql: owned(SUPPLIER_FIND_BY_ID), params }
    }

    /// Finds the live supplier with code `code`.
    pub fn find_by_code_query(code: &str) -> (r: SqlQuery)
        ensures
            r@.sql == SUPPLIER_FIND_BY_CODE@,
            r@.params == seq![SqlValue::Text(code@)],
    {
        let mut params: Vec<SqlParam> = Vec::new();
        params.push(SqlParam::Text(owned(code)));
        proof {
            assert(params_view(params@) =~= seq![SqlValue::Text(code@)]);
        }
        SqlQuery { sql: owned(SUPPLIER_FIND_BY_CODE), params }
    }

    /// Soft-deletes supplier `id`.
    pub fn delete_query(id: i64) -> (r: SqlQuery)
        ensures
            r@.sql == SUPPLIER_DELETE@,
            r@.params == seq![SqlValue::Int(id)],
    {
        let mut params: Vec<SqlParam> = Vec::new();
        params.push(SqlParam::Int(id));
        proof {
            assert(params_view(params@) =~= seq![SqlValue::Int(id)]);
        }
        SqlQuery { sql: owned(SUPPLIER_DELETE), params }
    }

    /// The live active suppliers, by name.
    pub fn find_all_active_query() -> (r: SqlQuery)
        ensures
            r@.sql == SUPPLIER_FIND_ALL_ACTIVE@,
            r@.params.len() == 0,
    {
        let mut params: Vec<SqlParam> = Vec::new();
        SqlQuery { sql: owned(SUPPLIER_FIND_ALL_ACTIVE), params }
    }
}

/// Creates an active customer with code `code` and returns it.
pub const CUSTOMER_CREATE: &'static str = "INSERT INTO customers (customer_code, name, contact_person, phone, email, address, is_active, notes) VALUES ($1, $2, $3, $4, $5, $6, TRUE, $7) RETURNING id, customer_code, name, contact_person, phone, email, address, is_active, notes, created_at, updated_at, deleted_at";

/// Finds live customer `id`.
pub const CUSTOMER_BY_ID: &'static str = "SELECT id, customer_code, name, contact_person, phone, email, address, is_active, notes, created_at, updated_at, deleted_at FROM customers WHERE id = $1 AND deleted_at IS NULL";

/// Finds the live customer with code `code`.
pub const CUSTOMER_BY_CODE: &'static str = "SELECT id, customer_code, name, contact_person, phone, email, address, is_active, notes, created_at, updated_at, deleted_at FROM customers WHERE customer_code = $1 AND deleted_at IS NULL";

/// Soft-deletes customer `id`.
pub const CUSTOMER_SOFT_DELETE: &'static str = "UPDATE customers SET deleted_at = NOW(), updated_at = NOW() WHERE id = $1 AND deleted_at IS NULL";

/// The first fifty live customers, by name, whose name or code contains `query`.
pub const CUSTOMER_SEARCH: &'static str = "SELECT id, customer_code, name, contact_person, phone, email, address, is_active, notes, created_at, updated_at, deleted_at FROM customers WHERE deleted_at IS NULL AND (name LIKE $1 OR customer_code LIKE $2) ORDER BY name ASC LIMIT 50";

/// The live active customers, by name.
pub const CUSTOMER_ACTIVE: &'static str = "SELECT id, customer_code, name, contact_person, phone, email, address, is_active, notes, created_at, updated_at, deleted_at FROM customers WHERE deleted_at IS NULL AND is_active = TRUE ORDER BY name ASC";

impl CustomerRepo {
    /// Creates an active customer with code `code` and returns it.
    pub fn create_query(code: &str, name: &str, contact_person: Option<&str>, phone: Option<&str>, email: Option<&str>, address: Option<&str>, notes: Option<&str>) -> (r: SqlQuery)
        ensures
            r@.sql == CUSTOMER_CREATE@,
            r@.params == seq![SqlValue::Text(code@), SqlValue::Text(name@), nullable_text(contact_person), nullable_text(phone), nullable_text(email), nullable_text(address), nullable_text(notes)],
    {
        let mut params: Vec<SqlParam> = Vec::new();
        params.push(SqlParam::Text(owned(code)));
        params.push(SqlParam::Text(owned(name)));
        params.push(nullable_param(contact_person));
        params.push(nullable_param(phone));
        params.push(nullable_param(email));
        params.push(nullable_param(address));
        params.push(nullable_param(notes));
        proof {
            assert(params_view(params@) =~= seq![SqlValue::Text(code@), SqlValue::Text(name@), nullable_text(contact_person), nullable_text(phone), nullable_text(email), nullable_text(address), nullable_text(notes)]);
        }
        SqlQuery { sql: owned(CUSTOMER_CREATE), params }
    }

    /// Finds live customer `id`.
    pub fn find_by_id_query(id: i64) -> (r: SqlQuery)
        ensures
            r@.sql == CUSTOMER_BY_ID@,
            r@.params == seq![SqlValue::Int(id)],
    {
        let mut params: Vec<SqlParam> = Vec::new();
        params.push(SqlParam::Int(id));
        proof {
            assert(params_view(params@) =~= seq![SqlValue::Int(id)]);
        }
        SqlQuery { sql: owned(CUSTOMER_BY_ID), params }
    }

    /// Finds the live customer with code `code`.
    pub fn find_by_code_query(code: &str) -> (r: SqlQuery)
        ensures
            r@.sql == CUSTOMER_BY_CODE@,
            r@.params == seq![SqlValue::Text(code@)],
    {
        let mut params: Vec<SqlParam> = Vec::new();
        params.push(SqlParam::Text(owned(code)));
        proof {
            assert(params_view(params@) =~= seq![SqlValue::Text(code@)]);
        }
        SqlQuery { sql: owned(CUSTOMER_BY_CODE), params }
    }

    /// Soft-deletes customer `id`.
    pub fn delete_query(id: i64) -> (r: SqlQuery)
        ensures
            r@.sql == CUSTOMER_SOFT_DELETE@,
            r@.params == seq![SqlValue::Int(id)],
    {
        let mut params: Vec<SqlParam> = Vec::new();
        params.push(SqlParam::Int(id));
        proof {
            assert(params_view(params@) =~= seq![SqlValue::Int(id)]);
        }
        SqlQuery { sql: owned(CUSTOMER_SOFT_DELETE), params }
    }

    /// The first fifty live customers, by name, whose name or code contains `query`.
    pub fn search_query(query: &str) -> (r: SqlQuery)
        ensures
            r@.sql == CUSTOMER_SEARCH@,
            r@.params == seq![SqlValue::Text(seq!['%'] + query@ + seq!['%']), SqlValue::Text(seq!['%'] + query@ + seq!['%'])],
    {
        let mut params: Vec<SqlParam> = Vec::new();
        params.push(SqlParam::Text(like_contains(query)));
        params.push(SqlParam::Text(like_contains(query)));
        proof {
            assert(params_view(params@) =~= seq![SqlValue::Text(seq!['%'] + query@ + seq!['%']), SqlValue::Text(seq!['%'] + query@ + seq!['%'])]);
        }
        SqlQuery { sql: owned(CUSTOMER_SEARCH), params }
    }

    /// The live active customers, by name.
    pub fn find_all_active_query() -> (r: SqlQuery)
        ensures
            r@.sql == CUSTOMER_ACTIVE@,
            r@.params.len() == 0,
    {
        let mut params: Vec<SqlParam> = Vec::new();
        SqlQuery { sql: owned(CUSTOMER_ACTIVE), params }
    }
}

/// Creates an active supplier with code `code` and returns it.
pub const SUPPLIER_CREATE: &'static str = "INSERT INTO suppliers (supplier_code, name, contact_person, phone, email, address, is_active, notes) VALUES (?, ?, ?, ?, ?, ?, 1, ?) RETURNING id, supplier_code, name, contact_person, phone, email, address, is_active, notes, created_at, updated_at, deleted_at";

impl SupplierRepo {
    /// Creates an active supplier with code `code` and returns it.
    pub fn create_query(code: &str, name: &str, contact_person: Option<&str>, phone: Option<&str>, email: Option<&str>, address: Option<&str>, notes: Option<&str>) -> (r: SqlQuery)
        ensures
            r@.sql == SUPPLIER_CREATE@,
            r@.params == seq![SqlValue::Text(code@), SqlValue::Text(name@), nullable_text(contact_person), nullable_text(phone), nullable_text(email), nullable_text(address), nullable_text(notes)],
    {
        let mut params: Vec<SqlParam> = Vec::new();
        params.push(SqlParam::Text(owned(code)));
        params.push(SqlParam::Text(owned(name)));
        params.push(nullable_param(contact_person));
        params.push(nullable_param(phone));
        params.push(nullable_param(email));
        params.push(nullable_param(address));
        params.push(nullable_param(notes));
        proof {
            assert(params_view(params@) =~= seq![SqlValue::Text(code@), SqlValue::Text(name@), nullable_text(contact_person), nullable_text(phone), nullable_text(email), nullable_text(address), nullable_text(notes)]);
        }
        SqlQuery { sql: owned(SUPPLIER_CREATE), params }
    }
}

/// The first fifty live suppliers, by name, whose name or code contains `query`.
pub const SUPPLIER_NAME_SEARCH: &'static str = "SELECT id, supplier_code, name, contact_person, phone, email, address, is_active, notes, created_at, updated_at, deleted_at FROM suppliers WHERE deleted_at IS NULL AND (name LIKE ? OR supplier_code LIKE ?) ORDER BY name ASC LIMIT 50";

impl SupplierRepo {
    /// The first fifty live suppliers, by name, whose name or code contains `query`.
    pub fn search_query(query: &str) -> (r: SqlQuery)
        ensures
            r@.sql == SUPPLIER_NAME_SEARCH@,
            r@.params == seq![SqlValue::Text(seq!['%'] + query@ + seq!['%']), SqlValue::Text(seq!['%'] + query@ + seq!['%'])],
    {
        let mut params: Vec<SqlParam> = Vec::new();
        params.push(SqlParam::Text(like_contains(query)));
        params.push(SqlParam::Text(like_contains(query)));
        proof {
            assert(params_view(params@) =~= seq![SqlValue::Text(seq!['%'] + query@ + seq!['%']), SqlValue::Text(seq!['%'] + query@ + seq!['%'])]);
        }
        SqlQuery { sql: owned(SUPPLIER_NAME_SEARCH), params }
    }
}

/// Each supplied field of a supplier update sets the column of the same name, and
/// no other field does: a column is among those set exactly when its own field
/// is supplied.
pub proof fn lemma_supplier_sets_named_columns(c: SupplierChanges)
    ensures
        chosen(supplier_changes_columns(), supplier_changes_flags(c)).contains("name"@) == c.name,
        chosen(supplier_changes_columns(), supplier_changes_flags(c)).contains("contact_person"@) == c.contact_person,
        chosen(supplier_changes_columns(), supplier_changes_flags(c)).contains("phone"@) == c.phone,
        chosen(supplier_changes_columns(), supplier_changes_flags(c)).contains("email"@) == c.email,
        chosen(supplier_changes_columns(), supplier_changes_flags(c)).contains("address"@) == c.address,
        chosen(supplier_changes_columns(), supplier_changes_flags(c)).contains("is_active"@) == c.is_active,
        chosen(supplier_changes_columns(), supplier_changes_flags(c)).contains("notes"@) == c.notes,
{
    let cols = supplier_changes_columns();
    let flags = supplier_changes_flags(c);
    reveal_strlit("name");
    reveal_strlit("contact_person");
    reveal_strlit("phone");
    reveal_strlit("email");
    reveal_strlit("address");
    reveal_strlit("is_active");
    reveal_strlit("notes");
    assert(cols.len() == 7 && flags.len() == 7);
    assert(cols[0].len() != cols[1].len());
    assert(cols[0].len() != cols[2].len());
    assert(cols[0].len() != cols[3].len());
    assert(cols[0].len() != cols[4].len());
    assert(cols[0].len() != cols[5].len());
    assert(cols[0].len() != cols[6].len());
    assert(cols[1].len() != cols[2].len());
    assert(cols[1].len() != cols[3].len());
    assert(cols[1].len() != cols[4].len());
    assert(cols[1].len() != cols[5].len());
    assert(cols[1].len() != cols[6].len());
    assert(cols[2][0] != cols[3][0]);
    assert(cols[2].len() != cols[4].len());
    assert(cols[2].len() != cols[5].len());
    assert(cols[2][0] != cols[6][0]);
    assert(cols[3].len() != cols[4].len());
    assert(cols[3].len() != cols[5].len());
    assert(cols[3][0] != cols[6][0]);
    assert(cols[4].len() != cols[5].len());
    assert(cols[4].len() != cols[6].len());
    assert(cols[5].len() != cols[6].len());
    assert(cols.no_duplicates());
    lemma_chosen_exactly_flagged(cols, flags, 0);
    assert(cols[0] == "name"@ && flags[0] == c.name);
    lemma_chosen_exactly_flagged(cols, flags, 1);
    assert(cols[1] == "contact_person"@ && flags[1] == c.contact_person);
    lemma_chosen_exactly_flagged(cols, flags, 2);
    assert(cols[2] == "phone"@ && flags[2] == c.phone);
    lemma_chosen_exactly_flagged(cols, flags, 3);
    assert(cols[3] == "email"@ && flags[3] == c.email);
    lemma_chosen_exactly_flagged(cols, flags, 4);
    assert(cols[4] == "address"@ && flags[4] == c.address);
    lemma_chosen_exactly_flagged(cols, flags, 5);
    assert(cols[5] == "is_active"@ && flags[5] == c.is_active);
    lemma_chosen_exactly_flagged(cols, flags, 6);
    assert(cols[6] == "notes"@ && flags[6] == c.notes);
}

/// Each supplied field of a customer update sets the column of the same name, and
/// no other field does: a column is among those set exactly when its own field
/// is supplied.
pub proof fn lemma_customer_sets_named_columns(c: CustomerChanges)
    ensures
        chosen(customer_changes_columns(), customer_changes_flags(c)).contains("name"@) == c.name,
        chosen(customer_changes_columns(), customer_changes_flags(c)).contains("contact_person"@) == c.contact_person,
        chosen(customer_changes_columns(), customer_changes_flags(c)).contains("phone"@) == c.phone,
        chosen(customer_changes_columns(), customer_changes_flags(c)).contains("email"@) == c.email,
        chosen(customer_changes_columns(), customer_changes_flags(c)).contains("address"@) == c.address,
        chosen(customer_changes_columns(), customer_changes_flags(c)).contains("is_active"@) == c.is_active,
        chosen(customer_changes_columns(), customer_changes_flags(c)).contains("notes"@) == c.notes,
{
    let cols = customer_changes_columns();
    let flags = customer_changes_flags(c);
    reveal_strlit("name");
    reveal_strlit("contact_person");
    reveal_strlit("phone");
    reveal_strlit("email");
    reveal_strlit("address");
    reveal_strlit("is_active");
    reveal_strlit("notes");
    assert(cols.len() == 7 && flags.len() == 7);
    assert(cols[0].len() != cols[1].len());
    assert(cols[0].len() != cols[2].len());
    assert(cols[0].len() != cols[3].len());
    assert(cols[0].len() != cols[4].len());
    assert(cols[0].len() != cols[5].len());
    assert(cols[0].len() != cols[6].len());
    assert(cols[1].len() != cols[2].len());
    assert(cols[1].len() != cols[3].len());
    assert(cols[1].len() != cols[4].len());
    assert(cols[1].len() != cols[5].len());
    assert(cols[1].len() != cols[6].len());
    assert(cols[2][0] != cols[3][0]);
    assert(cols[2].len() != cols[4].len());
    assert(cols[2].len() != cols[5].len());
    assert(cols[2][0] != cols[6][0]);
    assert(cols[3].len() != cols[4].len());
    assert(cols[3].len() != cols[5].len());
    assert(cols[3][0] != cols[6][0]);
    assert(cols[4].len() != cols[5].len());
    assert(cols[4].len() != cols[6].len());
    assert(cols[5].len() != cols[6].len());
    assert(cols.no_duplicates());
    lemma_chosen_exactly_flagged(cols, flags, 0);
    assert(cols[0] == "name"@ && flags[0] == c.name);
    lemma_chosen_exactly_flagged(cols, flags, 1);
    assert(cols[1] == "contact_person"@ && flags[1] == c.contact_person);
    lemma_chosen_exactly_flagged(cols, flags, 2);
    assert(cols[2] == "phone"@ && flags[2] == c.phone);
    lemma_chosen_exactly_flagged(cols, flags, 3);
    assert(cols[3] == "email"@ && flags[3] == c.email);
    lemma_chosen_exactly_flagged(cols, flags, 4);
    assert(cols[4] == "address"@ && flags[4] == c.address);
    lemma_chosen_exactly_flagged(cols, flags, 5);
    assert(cols[5] == "is_active"@ && flags[5] == c.is_active);
    lemma_chosen_exactly_flagged(cols, flags, 6);
    assert(cols[6] == "notes"@ && flags[6] == c.notes);
}

} // verus!
