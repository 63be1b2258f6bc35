//! Inventory documents, balances and movements: rows, list filters and list queries.
use vstd::prelude::*;
use crate::text::owned;
use crate::query::{
    Conditions, ListQuery, SqlParam, SqlQuery, SqlValue, clause_if, clauses_view, conditions_text, int_param, page_offset_fits, page_params, paged_list, params_view, string_param, well_bound,
};
use crate::sql_text::{
    lemma_change_type_eq, lemma_inbound_count, lemma_inbound_list, lemma_inbound_type_eq, lemma_inv_item_id_eq, lemma_inv_location_id_eq, lemma_item_id_eq, lemma_location_id_eq, lemma_loc_warehouse_id_eq, lemma_logs_count, lemma_logs_list, lemma_outbound_count, lemma_outbound_list, lemma_outbound_type_eq, lemma_page_by_id_desc, lemma_page_stock, lemma_status_eq, lemma_stock_count, lemma_stock_list, CHANGE_TYPE_EQ, INBOUND_COUNT, INBOUND_LIST, INBOUND_TYPE_EQ, INV_ITEM_ID_EQ, INV_LOCATION_ID_EQ, ITEM_ID_EQ, LOCATION_ID_EQ, LOC_WAREHOUSE_ID_EQ, LOGS_COUNT, LOGS_LIST, OUTBOUND_COUNT, OUTBOUND_LIST, OUTBOUND_TYPE_EQ, PAGE_BY_ID_DESC, PAGE_STOCK, STATUS_EQ, STOCK_COUNT, STOCK_LIST,
};

verus! {

/// One row of `inbound_records`.
pub struct InboundOrderRow {
    pub id: i64,
    pub record_no: String,
    pub inbound_type: String,
    pub order_id: Option<i64>,
    pub supplier_id: Option<i64>,
    pub status: String,
    pub notes: Option<String>,
    pub created_by: Option<i64>,
    pub created_at: String,
    pub updated_at: String,
    pub deleted_at: Option<String>,
}

/// One line of `inbound_items`; the quantity is the canonical `rust_decimal` text.
pub struct InboundOrderItemRow {
    pub id: i64,
    pub record_id: i64,
    pub item_id: i64,
    pub location_id: Option<i64>,
    pub quantity: String,
    pub notes: Option<String>,
    pub created_at: String,
}

/// One row of `outbound_records`.
pub struct OutboundOrderRow {
    pub id: i64,
    pub record_no: String,
    pub outbound_type: String,
    pub order_id: Option<i64>,
    pub customer_id: Option<i64>,
    pub status: String,
    pub notes: Option<String>,
    pub created_by: Option<i64>,
    pub created_at: String,
    pub updated_at: String,
    pub deleted_at: Option<String>,
}

/// One line of `outbound_items`; the quantity is the canonical `rust_decimal` text.
pub struct OutboundOrderItemRow {
    pub id: i64,
    pub record_id: i64,
    pub item_id: i64,
    pub location_id: Option<i64>,
    pub quantity: String,
    pub notes: Option<String>,
    pub created_at: String,
}

/// One row of `inventory`: the balance of one item at one location.
pub struct InventoryRow {
    pub id: i64,
    pub item_id: i64,
    pub location_id: i64,
    pub quantity: String,
    pub created_at: String,
    pub updated_at: String,
}

/// One row of `inventory_logs`: one movement of stock.
pub struct InventoryLogRow {
    pub id: i64,
    pub item_id: i64,
    pub location_id: Option<i64>,
    pub change_type: String,
    pub quantity: String,
    pub ref_type: Option<String>,
    pub ref_id: Option<i64>,
    pub notes: Option<String>,
    pub created_by: Option<i64>,
    pub created_at: String,
}

/// One stock line as the stock list shows it.
pub struct StockRow {
    pub item_id: i64,
    pub location_id: Option<i64>,
    pub warehouse_id: Option<i64>,
    pub quantity: String,
}

/// The optional filters of the inbound record list.
pub struct InboundOrderFilter {
    pub status: Option<String>,
    pub inbound_type: Option<String>,
}

/// The conditions of a `InboundOrderFilter`, in the order the query writes them.
pub open spec fn inbound_clauses(f: InboundOrderFilter) -> Seq<Seq<char>> {
    clause_if(f.status is Some, STATUS_EQ@)
        + clause_if(f.inbound_type is Some, INBOUND_TYPE_EQ@)
}

/// The parameters of a `InboundOrderFilter`, in placeholder order.
pub open spec fn inbound_params(f: InboundOrderFilter) -> Seq<SqlValue> {
    string_param(f.status) + string_param(f.inbound_type)
}

fn inbound_conditions(f: &InboundOrderFilter) -> (r: Conditions)
    ensures
        clauses_view(r.clauses@) == inbound_clauses(*f),
        params_view(r.params@) == inbound_params(*f),
        r.wf(),
{
    proof {
        lemma_status_eq();
        lemma_inbound_type_eq();
    }
    let mut c = Conditions::new();
    proof {
        assert(clauses_view(c.clauses@) =~= Seq::<Seq<char>>::empty());
        assert(params_view(c.params@) =~= Seq::<SqlValue>::empty());
    }
    c.add_string(STATUS_EQ, &f.status);
    c.add_string(INBOUND_TYPE_EQ, &f.inbound_type);
    proof {
        assert(clauses_view(c.clauses@) =~= inbound_clauses(*f));
        assert(params_view(c.params@) =~= inbound_params(*f));
    }
    c
}

/// The queries of `list_inbound_orders`: records not deleted, by status and type, newest first, one page.
pub fn list_inbound_orders_query(filter: &InboundOrderFilter, page: i64, page_size: i64) -> (r: ListQuery)
    requires
        page_offset_fits(page, page_size),
    ensures
        r.count@.sql == INBOUND_COUNT@ + conditions_text(inbound_clauses(*filter), " AND "@),
        r.count@.params == inbound_params(*filter),
        r.list@.sql == INBOUND_LIST@ + conditions_text(inbound_clauses(*filter), " AND "@)
            + PAGE_BY_ID_DESC@,
        r.list@.params == inbound_params(*filter) + page_params(page, page_size),
        well_bound(r.count@),
        well_bound(r.list@),
{
    proof {
        lemma_inbound_count();
        lemma_inbound_list();
        lemma_page_by_id_desc();
        crate::query::lemma_and_sep();
    }
    let a = inbound_conditions(filter);
    let b = inbound_conditions(filter);
    paged_list(INBOUND_COUNT, INBOUND_LIST, " AND ", a, b, PAGE_BY_ID_DESC, page, page_size)
}

/// The optional filters of the outbound record list.
pub struct OutboundOrderFilter {
    pub status: Option<String>,
    pub outbound_type: Option<String>,
}

/// The conditions of a `OutboundOrderFilter`, in the order the query writes them.
pub open spec fn outbound_clauses(f: OutboundOrderFilter) -> Seq<Seq<char>> {
    clause_if(f.status is Some, STATUS_EQ@)
        + clause_if(f.outbound_type is Some, OUTBOUND_TYPE_EQ@)
}

/// The parameters of a `OutboundOrderFilter`, in placeholder order.
pub open spec fn outbound_params(f: OutboundOrderFilter) -> Seq<SqlValue> {
    string_param(f.status) + string_param(f.outbound_type)
}

fn outbound_conditions(f: &OutboundOrderFilter) -> (r: Conditions)
    ensures
        clauses_view(r.clauses@) == outbound_clauses(*f),
        params_view(r.params@) == outbound_params(*f),
        r.wf(),
{
    proof {
        lemma_status_eq();
        lemma_outbound_type_eq();
    }
    let mut c = Conditions::new();
    proof {
        assert(clauses_view(c.clauses@) =~= Seq::<Seq<char>>::empty());
        assert(params_view(c.params@) =~= Seq::<SqlValue>::empty());
    }
    c.add_string(STATUS_EQ, &f.status);
    c.add_string(OUTBOUND_TYPE_EQ, &f.outbound_type);
    proof {
        assert(clauses_view(c.clauses@) =~= outbound_clauses(*f));
        assert(params_view(c.params@) =~= outbound_params(*f));
    }
    c
}

/// The queries of `list_outbound_orders`: records not deleted, by status and type, newest first, one page.
pub fn list_outbound_orders_query(filter: &OutboundOrderFilter, page: i64, page_size: i64) -> (r: ListQuery)
    requires
        page_offset_fits(page, page_size),
    ensures
        r.count@.sql == OUTBOUND_COUNT@ + conditions_text(outbound_clauses(*filter), " AND "@),
        r.count@.params == outbound_params(*filter),
        r.list@.sql == OUTBOUND_LIST@ + conditions_text(outbound_clauses(*filter), " AND "@)
            + PAGE_BY_ID_DESC@,
        r.list@.params == outbound_params(*filter) + page_params(page, page_size),
        well_bound(r.count@),
        well_bound(r.list@),
{
    proof {
        lemma_outbound_count();
        lemma_outbound_list();
        lemma_page_by_id_desc();
        crate::query::lemma_and_sep();
    }
    let a = outbound_conditions(filter);
    let b = outbound_conditions(filter);
    paged_list(OUTBOUND_COUNT, OUTBOUND_LIST, " AND ", a, b, PAGE_BY_ID_DESC, page, page_size)
}

/// The optional filters of the movement log list.
pub struct InventoryLogFilter {
    pub item_id: Option<i64>,
    pub location_id: Option<i64>,
    pub change_type: Option<String>,
}

/// The conditions of a `InventoryLogFilter`, in the order the query writes them.
pub open spec fn log_clauses(f: InventoryLogFilter) -> Seq<Seq<char>> {
    clause_if(f.item_id is Some, ITEM_ID_EQ@)
        + clause_if(f.location_id is Some, LOCATION_ID_EQ@)
        + clause_if(f.change_type is Some, CHANGE_TYPE_EQ@)
}

/// The parameters of a `InventoryLogFilter`, in placeholder order.
pub open spec fn log_params(f: InventoryLogFilter) -> Seq<SqlValue> {
    int_param(f.item_id) + int_param(f.location_id) + string_param(f.change_type)
}

fn log_conditions(f: &InventoryLogFilter) -> (r: Conditions)
    ensures
        clauses_view(r.clauses@) == log_clauses(*f),
        params_view(r.params@) == log_params(*f),
        r.wf(),
{
    proof {
        lemma_item_id_eq();
        lemma_location_id_eq();
        lemma_change_type_eq();
    }
    let mut c = Conditions::new();
    proof {
        assert(clauses_view(c.clauses@) =~= Seq::<Seq<char>>::empty());
        assert(params_view(c.params@) =~= Seq::<SqlValue>::empty());
    }
    c.add_int(ITEM_ID_EQ, f.item_id);
    c.add_int(LOCATION_ID_EQ, f.location_id);
    c.add_string(CHANGE_TYPE_EQ, &f.change_type);
    proof {
        assert(clauses_view(c.clauses@) =~= log_clauses(*f));
        assert(params_view(c.params@) =~= log_params(*f));
    }
    c
}

/// The queries of `list_logs`: movements by item, location and change type, newest first, one page.
pub fn list_logs_query(filter: &InventoryLogFilter, page: i64, page_size: i64) -> (r: ListQuery)
    requires
        page_offset_fits(page, page_size),
    ensures
        r.count@.sql == LOGS_COUNT@ + conditions_text(log_clauses(*filter), " WHERE "@),
        r.count@.params == log_params(*filter),
        r.list@.sql == LOGS_LIST@ + conditions_text(log_clauses(*filter), " WHERE "@)
            + PAGE_BY_ID_DESC@,
        r.list@.params == log_params(*filter) + page_params(page, page_size),
        well_bound(r.count@),
        well_bound(r.list@),
{
    proof {
        lemma_logs_count();
        lemma_logs_list();
        lemma_page_by_id_desc();
        crate::query::lemma_where_sep();
    }
    let a = log_conditions(filter);
    let b = log_conditions(filter);
    paged_list(LOGS_COUNT, LOGS_LIST, " WHERE ", a, b, PAGE_BY_ID_DESC, page, page_size)
}

/// The optional filters of the stock list.
pub struct StockFilter {
    pub item_id: Option<i64>,
    pub location_id: Option<i64>,
    pub warehouse_id: Option<i64>,
}

/// The conditions of a `StockFilter`, in the order the query writes them.
pub open spec fn stock_clauses(f: StockFilter) -> Seq<Seq<char>> {
    clause_if(f.item_id is Some, INV_ITEM_ID_EQ@)
        + clause_if(f.location_id is Some, INV_LOCATION_ID_EQ@)
        + clause_if(f.warehouse_id is Some, LOC_WAREHOUSE_ID_EQ@)
}

/// The parameters of a `StockFilter`, in placeholder order.
pub open spec fn stock_params(f: StockFilter) -> Seq<SqlValue> {
    int_param(f.item_id) + int_param(f.location_id) + int_param(f.warehouse_id)
}

fn stock_conditions(f: &StockFilter) -> (r: Conditions)
    ensures
        clauses_view(r.clauses@) == stock_clauses(*f),
        params_view(r.params@) == stock_params(*f),
        r.wf(),
{
    proof {
        lemma_inv_item_id_eq();
        lemma_inv_location_id_eq();
        lemma_loc_warehouse_id_eq();
    }
    let mut c = Conditions::new();
    proof {
        assert(clauses_view(c.clauses@) =~= Seq::<Seq<char>>::empty());
        assert(params_view(c.params@) =~= Seq::<SqlValue>::empty());
    }
    c.add_int(INV_ITEM_ID_EQ, f.item_id);
    c.add_int(INV_LOCATION_ID_EQ, f.location_id);
    c.add_int(LOC_WAREHOUSE_ID_EQ, f.warehouse_id);
    proof {
        assert(clauses_view(c.clauses@) =~= stock_clauses(*f));
        assert(params_view(c.params@) =~= stock_params(*f));
    }
    c
}

/// The queries of `list_stock`: balance rows by item, location and the warehouse of the location, by item then location, one page.
pub fn list_stock_query(filter: &StockFilter, page: i64, page_size: i64) -> (r: ListQuery)
    requires
        page_offset_fits(page, page_size),
    ensures
        r.count@.sql == STOCK_COUNT@ + conditions_text(stock_clauses(*filter), " WHERE "@),
        r.count@.params == stock_params(*filter),
        r.list@.sql == STOCK_LIST@ + conditions_text(stock_clauses(*filter), " WHERE "@)
            + PAGE_STOCK@,
        r.list@.params == stock_params(*filter) + page_params(page, page_size),
        well_bound(r.count@),
        well_bound(r.list@),
{
    proof {
        lemma_stock_count();
        lemma_stock_list();
        lemma_page_stock();
        crate::query::lemma_where_sep();
    }
    let a = stock_conditions(filter);
    let b = stock_conditions(filter);
    paged_list(STOCK_COUNT, STOCK_LIST, " WHERE ", a, b, PAGE_STOCK, page, page_size)
}

/// The stored balance of one item at one location.
pub const BALANCE_AT: &'static str = "SELECT quantity FROM inventory WHERE item_id = ? AND location_id = ?";

/// Writes the balance of one item at one location, inserting the row if there is none.
pub const BALANCE_UPSERT: &'static str = "INSERT INTO inventory (item_id, location_id, quantity)
         VALUES (?, ?, ?)
         ON CONFLICT(item_id, location_id) DO UPDATE SET
             quantity = excluded.quantity,
             updated_at = datetime('now')";

/// Reads the balance of item `item_id` at location `location_id`.
pub fn balance_at_query(item_id: i64, location_id: i64) -> (r: SqlQuery)
    ensures
        r@.sql == BALANCE_AT@,
        r@.params == seq![SqlValue::Int(item_id), SqlValue::Int(location_id)],
{
    let mut params: Vec<SqlParam> = Vec::new();
    params.push(SqlParam::Int(item_id));
    params.push(SqlParam::Int(location_id));
    proof {
        assert(params_view(params@) =~= seq![SqlValue::Int(item_id), SqlValue::Int(location_id)]);
    }
    SqlQuery { sql: owned(BALANCE_AT), params }
}

/// Stores `quantity` (the text `money::incremented_text` or `decremented_text`
/// gave) as the balance of item `item_id` at location `location_id`.
pub fn balance_upsert_query(item_id: i64, location_id: i64, quantity: &str) -> (r: SqlQuery)
    ensures
        r@.sql == BALANCE_UPSERT@,
        r@.params == seq![SqlValue::Int(item_id), SqlValue::Int(location_id), SqlValue::Text(quantity@)],
{
    let mut params: Vec<SqlParam> = Vec::new();
    params.push(SqlParam::Int(item_id));
    params.push(SqlParam::Int(location_id));
    params.push(SqlParam::Text(owned(quantity)));
    proof {
        assert(params_view(params@) =~= seq![
            SqlValue::Int(item_id),
            SqlValue::Int(location_id),
            SqlValue::Text(quantity@),
        ]);
    }
    SqlQuery { sql: owned(BALANCE_UPSERT), params }
}

} // verus!
