//! Sales orders and reservations: rows, list filter and list queries.
use vstd::prelude::*;
use crate::money::{amount_text, amount_wf, decimal_text, Amount};
use crate::text::owned;
use crate::query::{
    Conditions, ListQuery, SqlParam, SqlQuery, SqlValue, clause_if, clauses_view, conditions_text, int_param, like_string_param, page_offset_fits, page_params, paged_list, params_view, string_param, well_bound,
};
use crate::sql_text::{
    lemma_customer_id_eq, lemma_order_date_from, lemma_order_date_to, lemma_order_no_like, lemma_page_by_id_desc, lemma_sales_orders_count, lemma_sales_orders_list, lemma_status_eq, CUSTOMER_ID_EQ, ORDER_DATE_FROM, ORDER_DATE_TO, ORDER_NO_LIKE, PAGE_BY_ID_DESC, SALES_ORDERS_COUNT, SALES_ORDERS_LIST, STATUS_EQ,
};

verus! {

/// One row of `sales_orders`; money is the canonical `rust_decimal` text.
pub struct SalesOrderRow {
    pub id: i64,
    pub order_no: String,
    pub customer_id: i64,
    pub order_date: String,
    pub status: String,
    pub doc_status: i64,
    pub total_amount: String,
    pub currency: String,
    pub notes: Option<String>,
    pub created_by: Option<i64>,
    pub created_at: String,
    pub updated_at: String,
    pub deleted_at: Option<String>,
}

/// One row of `reservations` (an available-to-promise hold on stock); the
/// quantity is the canonical `rust_decimal` text.
pub struct ReservationRow {
    pub id: i64,
    pub item_id: i64,
    pub quantity: String,
    pub order_type: String,
    pub order_id: i64,
    pub status: String,
    pub created_by: Option<i64>,
    pub created_at: String,
    pub released_at: Option<String>,
}

/// The optional filters of the sales order list.
pub struct SalesOrderFilter {
    pub customer_id: Option<i64>,
    pub status: Option<String>,
    pub order_date_from: Option<String>,
    pub order_date_to: Option<String>,
    pub order_no: Option<String>,
}

/// The conditions of a `SalesOrderFilter`, in the order the query writes them.
pub open spec fn sales_order_clauses(f: SalesOrderFilter) -> Seq<Seq<char>> {
    clause_if(f.customer_id is Some, CUSTOMER_ID_EQ@)
        + clause_if(f.status is Some, STATUS_EQ@)
        + clause_if(f.order_date_from is Some, ORDER_DATE_FROM@)
        + clause_if(f.order_date_to is Some, ORDER_DATE_TO@)
        + clause_if(f.order_no is Some, ORDER_NO_LIKE@)
}

/// The parameters of a `SalesOrderFilter`, in placeholder order.
pub open spec fn sales_order_params(f: SalesOrderFilter) -> Seq<SqlValue> {
    int_param(f.customer_id) + string_param(f.status) + string_param(f.order_date_from) + string_param(f.order_date_to) + like_string_param(f.order_no)
}

fn sales_order_conditions(f: &SalesOrderFilter) -> (r: Conditions)
    ensures
        clauses_view(r.clauses@) == sales_order_clauses(*f),
        params_view(r.params@) == sales_order_params(*f),
        r.wf(),
{
    proof {
        lemma_customer_id_eq();
        lemma_status_eq();
        lemma_order_date_from();
        lemma_order_date_to();
        lemma_order_no_like();
    }
    let mut c = Conditions::new();
    proof {
        assert(clauses_view(c.clauses@) =~= Seq::<Seq<char>>::empty());
        assert(params_view(c.params@) =~= Seq::<SqlValue>::empty());
    }
    c.add_int(CUSTOMER_ID_EQ, f.customer_id);
    c.add_string(STATUS_EQ, &f.status);
    c.add_string(ORDER_DATE_FROM, &f.order_date_from);
    c.add_string(ORDER_DATE_TO, &f.order_date_to);
    c.add_like_string(ORDER_NO_LIKE, &f.order_no);
    proof {
        assert(clauses_view(c.clauses@) =~= sales_order_clauses(*f));
        assert(params_view(c.params@) =~= sales_order_params(*f));
    }
    c
}

/// The queries of `list_orders` for sales orders: orders not deleted, by customer, status, order date range and order number substring, newest first, one page.
pub fn list_sales_orders_query(filter: &SalesOrderFilter, page: i64, page_size: i64) -> (r: ListQuery)
    requires
        page_offset_fits(page, page_size),
    ensures
        r.count@.sql == SALES_ORDERS_COUNT@ + conditions_text(sales_order_clauses(*filter), " AND "@),
        r.count@.params == sales_order_params(*filter),
        r.list@.sql == SALES_ORDERS_LIST@ + conditions_text(sales_order_clauses(*filter), " AND "@)
            + PAGE_BY_ID_DESC@,
        r.list@.params == sales_order_params(*filter) + page_params(page, page_size),
        well_bound(r.count@),
        well_bound(r.list@),
{
    proof {
        lemma_sales_orders_count();
        lemma_sales_orders_list();
        lemma_page_by_id_desc();
        crate::query::lemma_and_sep();
    }
    let a = sales_order_conditions(filter);
    let b = sales_order_conditions(filter);
    paged_list(SALES_ORDERS_COUNT, SALES_ORDERS_LIST, " AND ", a, b, PAGE_BY_ID_DESC, page, page_size)
}

/// Holds stock for a sales order: a new active reservation.
pub const RESERVATION_INSERT: &'static str = "INSERT INTO reservations (item_id, quantity, order_type, order_id, status, created_by)
         VALUES (?, ?, 'sales', ?, 'active', ?)";

/// Releases one active reservation.
pub const RESERVATION_RELEASE: &'static str = "UPDATE reservations SET status = 'released', released_at = datetime('now')
         WHERE id = ? AND status = 'active'";

/// Cancels one active reservation.
pub const RESERVATION_CANCEL: &'static str = "UPDATE reservations SET status = 'cancelled'
         WHERE id = ? AND status = 'active'";

/// Releases every active reservation of one sales order.
pub const ORDER_RESERVATIONS_RELEASE: &'static str = "UPDATE reservations SET status = 'released', released_at = datetime('now')
         WHERE order_id = ? AND order_type = 'sales' AND status = 'active'";

/// The active reservations of one item, oldest first.
pub const ITEM_RESERVATIONS: &'static str = "SELECT id, item_id, quantity, order_type, order_id, status, created_by,
                created_at, released_at
         FROM reservations WHERE item_id = ? AND status = 'active'
         ORDER BY id";

/// The quantities of the active reservations of one item; they are summed as
/// decimals by `money::sum_amount_texts`, never by SQL.
pub const ITEM_RESERVED_QUANTITIES: &'static str = "SELECT quantity FROM reservations
         WHERE item_id = ? AND status = 'active'";

/// The quantities of the active reservations of one item held by other orders than
/// the one being submitted.
pub const ITEM_RESERVED_BY_OTHERS: &'static str = "SELECT quantity FROM reservations
         WHERE item_id = ? AND status = 'active' AND order_id != ?";

/// An optional id, or NULL.
pub open spec fn id_or_null(v: Option<i64>) -> SqlValue {
    match v {
        Some(n) => SqlValue::Int(n),
        None => SqlValue::Null,
    }
}

fn one_id(sql: &str, id: i64) -> (r: SqlQuery)
    ensures
        r@.sql == sql@,
        r@.params == seq![SqlValue::Int(id)],
{
    let mut params: Vec<SqlParam> = Vec::new();
    params.push(SqlParam::Int(id));
    proof {
        assert(params_view(params@) =~= seq![SqlValue::Int(id)]);
    }
    SqlQuery { sql: owned(sql), params }
}

/// Reserves `quantity` of item `item_id` for sales order `order_id`; the quantity
/// is stored as its canonical decimal text.
pub fn insert_reservation_query(item_id: i64, quantity: Amount, order_id: i64, created_by: Option<i64>) -> (r: SqlQuery)
    requires
        amount_wf(quantity),
    ensures
        r@.sql == RESERVATION_INSERT@,
        r@.params == seq![
            SqlValue::Int(item_id),
            SqlValue::Text(amount_text(quantity)),
            SqlValue::Int(order_id),
            id_or_null(created_by),
        ],
{
    let mut params: Vec<SqlParam> = Vec::new();
    params.push(SqlParam::Int(item_id));
    params.push(SqlParam::Text(decimal_text(quantity)));
    params.push(SqlParam::Int(order_id));
    match created_by {
        Some(u) => params.push(SqlParam::Int(u)),
        None => params.push(SqlParam::Null),
    }
    proof {
        assert(params_view(params@) =~= seq![
            SqlValue::Int(item_id),
            SqlValue::Text(amount_text(quantity)),
            SqlValue::Int(order_id),
            id_or_null(created_by),
        ]);
    }
    SqlQuery { sql: owned(RESERVATION_INSERT), params }
}

/// Releases reservation `reservation_id` if it is active (no row changed: it was
/// not found or not active, see `outcomes::Missing::ReleasableReservation`).
pub fn release_reservation_query(reservation_id: i64) -> (r: SqlQuery)
    ensures
        r@.sql == RESERVATION_RELEASE@,
        r@.params == seq![SqlValue::Int(reservation_id)],
{
    one_id(RESERVATION_RELEASE, reservation_id)
}

/// Cancels reservation `reservation_id` if it is active (no row changed: it was
/// not found or not active, see `outcomes::Missing::CancellableReservation`).
pub fn cancel_reservation_query(reservation_id: i64) -> (r: SqlQuery)
    ensures
        r@.sql == RESERVATION_CANCEL@,
        r@.params == seq![SqlValue::Int(reservation_id)],
{
    one_id(RESERVATION_CANCEL, reservation_id)
}

/// Releases all active reservations of sales order `order_id`; the number of rows
/// changed is the number released.
pub fn release_reservations_for_order_query(order_id: i64) -> (r: SqlQuery)
    ensures
        r@.sql == ORDER_RESERVATIONS_RELEASE@,
        r@.params == seq![SqlValue::Int(order_id)],
{
    one_id(ORDER_RESERVATIONS_RELEASE, order_id)
}

/// The active reservations of item `item_id`.
pub fn active_reservations_for_item_query(item_id: i64) -> (r: SqlQuery)
    ensures
        r@.sql == ITEM_RESERVATIONS@,
        r@.params == seq![SqlValue::Int(item_id)],
{
    one_id(ITEM_RESERVATIONS, item_id)
}

/// The quantities reserved for item `item_id` by all its active reservations.
pub fn reserved_quantities_query(item_id: i64) -> (r: SqlQuery)
    ensures
        r@.sql == ITEM_RESERVED_QUANTITIES@,
        r@.params == seq![SqlValue::Int(item_id)],
{
    one_id(ITEM_RESERVED_QUANTITIES, item_id)
}

/// The quantities reserved for item `item_id` by active reservations, leaving out
/// those of sales order `order_id`, the order being submitted.
pub fn reserved_by_other_orders_query(item_id: i64, order_id: i64) -> (r: SqlQuery)
    ensures
        r@.sql == ITEM_RESERVED_BY_OTHERS@,
        r@.params == seq![SqlValue::Int(item_id), SqlValue::Int(order_id)],
{
    let mut params: Vec<SqlParam> = Vec::new();
    params.push(SqlParam::Int(item_id));
    params.push(SqlParam::Int(order_id));
    proof {
        assert(params_view(params@) =~= seq![SqlValue::Int(item_id), SqlValue::Int(order_id)]);
    }
    SqlQuery { sql: owned(ITEM_RESERVED_BY_OTHERS), params }
}

} // verus!

