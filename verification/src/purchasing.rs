//! Purchase orders: rows, list filter and list queries, and the statements that
//! insert an order, change its status and rewrite its header.
use vstd::prelude::*;
use crate::query::{
    nullable_param, nullable_text, SqlParam, SqlQuery, Conditions, ListQuery, SqlValue, clause_if, clauses_view, conditions_text, int_param, like_string_param, page_offset_fits, page_params, paged_list, params_view, string_param, well_bound,
};
use crate::sql_text::{
    lemma_order_date_from, lemma_order_date_to, lemma_order_no_like, lemma_page_by_id_desc, lemma_purchase_orders_count, lemma_purchase_orders_list, lemma_status_eq, lemma_supplier_id_eq, ORDER_DATE_FROM, ORDER_DATE_TO, ORDER_NO_LIKE, PAGE_BY_ID_DESC, PURCHASE_ORDERS_COUNT, PURCHASE_ORDERS_LIST, STATUS_EQ, SUPPLIER_ID_EQ,
};

verus! {

/// One row of `purchase_orders`; money is the canonical `rust_decimal` text.
pub struct PurchaseOrderRow {
    pub id: i64,
    pub order_no: String,
    pub supplier_id: i64,
    pub order_date: String,
    pub status: String,
    pub doc_status: i64,
    pub total_amount: String,
    pub currency: String,
    pub notes: Option<String>,
    pub created_by: Option<i64>,
    pub created_at: String,
    pub updated_at: String,
    pub deleted_at: Option<String>,
}

/// The optional filters of the purchase order list.
pub struct PurchaseOrderFilter {
    pub supplier_id: Option<i64>,
    pub status: Option<String>,
    pub order_date_from: Option<String>,
    pub order_date_to: Option<String>,
    pub order_no: Option<String>,
}

/// The conditions of a `PurchaseOrderFilter`, in the order the query writes them.
pub open spec fn purchase_order_clauses(f: PurchaseOrderFilter) -> Seq<Seq<char>> {
    clause_if(f.supplier_id is Some, SUPPLIER_ID_EQ@)
        + clause_if(f.status is Some, STATUS_EQ@)
        + clause_if(f.order_date_from is Some, ORDER_DATE_FROM@)
        + clause_if(f.order_date_to is Some, ORDER_DATE_TO@)
        + clause_if(f.order_no is Some, ORDER_NO_LIKE@)
}

/// The parameters of a `PurchaseOrderFilter`, in placeholder order.
pub open spec fn purchase_order_params(f: PurchaseOrderFilter) -> Seq<SqlValue> {
    int_param(f.supplier_id) + string_param(f.status) + string_param(f.order_date_from) + string_param(f.order_date_to) + like_string_param(f.order_no)
}

fn purchase_order_conditions(f: &PurchaseOrderFilter) -> (r: Conditions)
    ensures
        clauses_view(r.clauses@) == purchase_order_clauses(*f),
        params_view(r.params@) == purchase_order_params(*f),
        r.wf(),
{
    proof {
        lemma_supplier_id_eq();
        lemma_status_eq();
        lemma_order_date_from();
        lemma_order_date_to();
        lemma_order_no_like();
    }
    let mut c = Conditions::new();
    proof {
        assert(clauses_view(c.clauses@) =~= Seq::<Seq<char>>::empty());
        assert(params_view(c.params@) =~= Seq::<SqlValue>::empty());
    }
    c.add_int(SUPPLIER_ID_EQ, f.supplier_id);
    c.add_string(STATUS_EQ, &f.status);
    c.add_string(ORDER_DATE_FROM, &f.order_date_from);
    c.add_string(ORDER_DATE_TO, &f.order_date_to);
    c.add_like_string(ORDER_NO_LIKE, &f.order_no);
    proof {
        assert(clauses_view(c.clauses@) =~= purchase_order_clauses(*f));
        assert(params_view(c.params@) =~= purchase_order_params(*f));
    }
    c
}

/// The queries of `list_orders` for purchase orders: orders not deleted, by supplier, status, order date range and order number substring, newest first, one page.
pub fn list_purchase_orders_query(filter: &PurchaseOrderFilter, page: i64, page_size: i64) -> (r: ListQuery)
    requires
        page_offset_fits(page, page_size),
    ensures
        r.count@.sql == PURCHASE_ORDERS_COUNT@ + conditions_text(purchase_order_clauses(*filter), " AND "@),
        r.count@.params == purchase_order_params(*filter),
        r.list@.sql == PURCHASE_ORDERS_LIST@ + conditions_text(purchase_order_clauses(*filter), " AND "@)
            + PAGE_BY_ID_DESC@,
        r.list@.params == purchase_order_params(*filter) + page_params(page, page_size),
        well_bound(r.count@),
        well_bound(r.list@),
{
    proof {
        lemma_purchase_orders_count();
        lemma_purchase_orders_list();
        lemma_page_by_id_desc();
        crate::query::lemma_and_sep();
    }
    let a = purchase_order_conditions(filter);
    let b = purchase_order_conditions(filter);
    paged_list(PURCHASE_ORDERS_COUNT, PURCHASE_ORDERS_LIST, " AND ", a, b, PAGE_BY_ID_DESC, page, page_size)
}


// ---------------------------------------------------------------------------
// Writing purchase orders
// ---------------------------------------------------------------------------

/// Inserts a draft purchase order.
pub const PURCHASE_ORDER_INSERT: &'static str = "INSERT INTO purchase_orders\n            (order_no, supplier_id, order_date, status, doc_status, total_amount,\n             currency, notes, created_by)\n         VALUES (?, ?, ?, 'draft', 0, ?, ?, ?, ?)";

/// Sets the status and the document status of a purchase order.
pub const PURCHASE_STATUS_WITH_DOC: &'static str = "UPDATE purchase_orders SET status = ?, doc_status = ?, updated_at = datetime('now')\n                 WHERE id = ? AND deleted_at IS NULL";

/// Sets the status of a purchase order.
pub const PURCHASE_STATUS: &'static str = "UPDATE purchase_orders SET status = ?, updated_at = datetime('now')\n                 WHERE id = ? AND deleted_at IS NULL";

/// Rewrites the header of a purchase order.
pub const PURCHASE_ORDER_UPDATE: &'static str = "UPDATE purchase_orders SET supplier_id = ?, order_date = ?, total_amount = ?,\n             currency = ?, notes = ?, updated_at = datetime('now')\n         WHERE id = ? AND deleted_at IS NULL";

/// The currency of an order: the given one, else `CNY`.
pub open spec fn order_currency(currency: Option<&str>) -> Seq<char> {
    match currency {
        Some(c) => c@,
        None => "CNY"@,
    }
}

/// The currency of an order: the given one, else `CNY`.
pub fn currency_or_default(currency: Option<&str>) -> (r: &str)
    ensures
        r@ == order_currency(currency),
{
    match currency {
        Some(c) => c,
        None => "CNY",
    }
}

/// The insertion of a draft purchase order: number, supplier, date, total (as text),
/// currency (`CNY` when none is given), notes and creator.
pub fn purchase_insert_query(
    order_no: &str,
    supplier_id: i64,
    order_date: &str,
    total_amount_text: &str,
    currency: Option<&str>,
    notes: Option<&str>,
    user_id: i64,
) -> (r: SqlQuery)
    ensures
        r@.sql == PURCHASE_ORDER_INSERT@,
        r@.params == seq![
            SqlValue::Text(order_no@),
            SqlValue::Int(supplier_id),
            SqlValue::Text(order_date@),
            SqlValue::Text(total_amount_text@),
            SqlValue::Text(order_currency(currency)),
            nullable_text(notes),
            SqlValue::Int(user_id),
        ],
{
    let mut params: Vec<SqlParam> = Vec::new();
    params.push(SqlParam::Text(String::from_str(order_no)));
    params.push(SqlParam::Int(supplier_id));
    params.push(SqlParam::Text(String::from_str(order_date)));
    params.push(SqlParam::Text(String::from_str(total_amount_text)));
    params.push(SqlParam::Text(String::from_str(currency_or_default(currency))));
    params.push(nullable_param(notes));
    params.push(SqlParam::Int(user_id));
    proof {
        assert(params_view(params@) =~= seq![
            SqlValue::Text(order_no@),
            SqlValue::Int(supplier_id),
            SqlValue::Text(order_date@),
            SqlValue::Text(total_amount_text@),
            SqlValue::Text(order_currency(currency)),
            nullable_text(notes),
            SqlValue::Int(user_id),
        ]);
    }
    SqlQuery { sql: String::from_str(PURCHASE_ORDER_INSERT), params }
}

/// The status change of purchase order `id`, with its document status when one is given.
pub fn purchase_status_query(id: i64, status: &str, doc_status: Option<i64>) -> (r: SqlQuery)
    ensures
        doc_status matches Some(ds) ==> r@.sql == PURCHASE_STATUS_WITH_DOC@ && r@.params == seq![
            SqlValue::Text(status@),
            SqlValue::Int(ds),
            SqlValue::Int(id),
        ],
        doc_status is None ==> r@.sql == PURCHASE_STATUS@ && r@.params == seq![
            SqlValue::Text(status@),
            SqlValue::Int(id),
        ],
{
    let mut params: Vec<SqlParam> = Vec::new();
    params.push(SqlParam::Text(String::from_str(status)));
    match doc_status {
        Some(ds) => {
            params.push(SqlParam::Int(ds));
            params.push(SqlParam::Int(id));
            proof {
                assert(params_view(params@) =~= seq![
                    SqlValue::Text(status@),
                    SqlValue::Int(ds),
                    SqlValue::Int(id),
                ]);
            }
            SqlQuery { sql: String::from_str(PURCHASE_STATUS_WITH_DOC), params }
        },
        None => {
            params.push(SqlParam::Int(id));
            proof {
                assert(params_view(params@) =~= seq![SqlValue::Text(status@), SqlValue::Int(id)]);
            }
            SqlQuery { sql: String::from_str(PURCHASE_STATUS), params }
        },
    }
}

/// The rewrite of the header of purchase order `id`: supplier, date, total (as text),
/// currency (`CNY` when none is given) and notes.
pub fn purchase_update_query(
    id: i64,
    supplier_id: i64,
    order_date: &str,
    total_amount_text: &str,
    currency: Option<&str>,
    notes: Option<&str>,
) -> (r: SqlQuery)
    ensures
        r@.sql == PURCHASE_ORDER_UPDATE@,
        r@.params == seq![
            SqlValue::Int(supplier_id),
            SqlValue::Text(order_date@),
            SqlValue::Text(total_amount_text@),
            SqlValue::Text(order_currency(currency)),
            nullable_text(notes),
            SqlValue::Int(id),
        ],
{
    let mut params: Vec<SqlParam> = Vec::new();
    params.push(SqlParam::Int(supplier_id));
    params.push(SqlParam::Text(String::from_str(order_date)));
    params.push(SqlParam::Text(String::from_str(total_amount_text)));
    params.push(SqlParam::Text(String::from_str(currency_or_default(currency))));
    params.push(nullable_param(notes));
    params.push(SqlParam::Int(id));
    proof {
        assert(params_view(params@) =~= seq![
            SqlValue::Int(supplier_id),
            SqlValue::Text(order_date@),
            SqlValue::Text(total_amount_text@),
            SqlValue::Text(order_currency(currency)),
            nullable_text(notes),
            SqlValue::Int(id),
        ]);
    }
    SqlQuery { sql: String::from_str(PURCHASE_ORDER_UPDATE), params }
}

} // verus!
