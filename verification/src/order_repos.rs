//! Purchase orders and the inbound and outbound stock records of the pipe
//! business: their lists, their updates, and the creation of a record with the
//! approval status its type starts with.
use vstd::prelude::*;
use crate::updates::{lemma_chosen_exactly_flagged};
use crate::text::owned;
use crate::listing::{numbered_page, numbered_page_text, order_suffix, plain_page, push_numbered_value, text_page};
use crate::numbering::{int_text, push_i64};
use crate::paging::SortOrder;
use crate::pipes::{decimal_param, has_text};
use crate::quality::lemma_listed_plain;
use crate::query::{
    clause_if, clauses_view, conditions_text, nullable_param, nullable_text, params_view, string_param, well_bound, Conditions,
    ListQuery, SqlParam, SqlQuery, SqlValue,
};
use crate::repo_text::{lemma_limit_offset, LIMIT_OFFSET, NOT_DELETED};
use crate::sorting::{key_view, lookup_column, pick_column, table_view};
use crate::text::{count_char, count_upto, join_with, like_contains, str_eq, strings_view};
use crate::updates::{
    appended_sets, appended_update, chosen, listed_sets, listed_update, names_view, UpdatePlan,
};

verus! {

/// Purchase orders (`purchase_orders`) and their items.
pub struct PurchaseOrderRepo;

/// Inbound stock records (`inbound_records`).
pub struct InboundRepo;

/// Outbound stock records (`outbound_records`).
pub struct OutboundRepo;

/// Counts purchase orders (with their suppliers); the conditions follow.
pub const PO_COUNT_HEAD: &'static str = "SELECT COUNT(*) as cnt FROM purchase_orders po LEFT JOIN suppliers s ON s.id = po.supplier_id WHERE ";

/// `PO_COUNT_HEAD` holds 0 placeholders.
pub proof fn lemma_po_count_head()
    ensures
        count_char(PO_COUNT_HEAD@, '?') == 0,
{
    reveal_strlit("SELECT COUNT(*) as cnt FROM purchase_orders po LEFT JOIN suppliers s ON s.id = po.supplier_id WHERE ");
    reveal_with_fuel(count_upto, 41);
    let s = PO_COUNT_HEAD@;
    assert(count_upto(s, '?', 40) == 0);
    assert(count_upto(s, '?', 80) == 0);
    assert(s.len() == 100);
}

/// Selects purchase orders (with their suppliers); the conditions follow.
pub const PO_ROWS_HEAD: &'static str = "SELECT po.id, po.order_no, po.supplier_id, po.order_date, po.status, po.total_amount, po.notes, po.created_by, po.created_at, po.updated_at, po.deleted_at FROM purchase_orders po LEFT JOIN suppliers s ON s.id = po.supplier_id WHERE ";

/// `PO_ROWS_HEAD` holds 0 placeholders.
pub proof fn lemma_po_rows_head()
    ensures
        count_char(PO_ROWS_HEAD@, '?') == 0,
{
    reveal_strlit("SELECT po.id, po.order_no, po.supplier_id, po.order_date, po.status, po.total_amount, po.notes, po.created_by, po.created_at, po.updated_at, po.deleted_at FROM purchase_orders po LEFT JOIN suppliers s ON s.id = po.supplier_id WHERE ");
    reveal_with_fuel(count_upto, 41);
    let s = PO_ROWS_HEAD@;
    assert(count_upto(s, '?', 40) == 0);
    assert(count_upto(s, '?', 80) == 0);
    assert(count_upto(s, '?', 120) == 0);
    assert(count_upto(s, '?', 160) == 0);
    assert(count_upto(s, '?', 200) == 0);
    assert(s.len() == 232);
}

/// Purchase orders not soft-deleted.
pub const PO_NOT_DELETED: &'static str = "po.deleted_at IS NULL";

/// `PO_NOT_DELETED` holds 0 placeholders.
pub proof fn lemma_po_not_deleted()
    ensures
        count_char(PO_NOT_DELETED@, '?') == 0,
{
    reveal_strlit("po.deleted_at IS NULL");
    reveal_with_fuel(count_upto, 41);
    let s = PO_NOT_DELETED@;
    assert(s.len() == 21);
}

/// Order number or supplier name matches a pattern.
pub const PO_SEARCH: &'static str = "(po.order_no LIKE ? OR s.name LIKE ?)";

/// `PO_SEARCH` holds 2 placeholders.
pub proof fn lemma_po_search()
    ensures
        count_char(PO_SEARCH@, '?') == 2,
{
    reveal_strlit("(po.order_no LIKE ? OR s.name LIKE ?)");
    reveal_with_fuel(count_upto, 41);
    let s = PO_SEARCH@;
    assert(s.len() == 37);
}

/// Filter condition `po.status = ?`.
pub const PO_STATUS_EQ: &'static str = "po.status = ?";

/// `PO_STATUS_EQ` holds 1 placeholder.
pub proof fn lemma_po_status_eq()
    ensures
        count_char(PO_STATUS_EQ@, '?') == 1,
{
    reveal_strlit("po.status = ?");
    reveal_with_fuel(count_upto, 41);
    let s = PO_STATUS_EQ@;
    assert(s.len() == 13);
}

/// Filter condition `po.supplier_id = ?`.
pub const PO_SUPPLIER_EQ: &'static str = "po.supplier_id = ?";

/// `PO_SUPPLIER_EQ` holds 1 placeholder.
pub proof fn lemma_po_supplier_eq()
    ensures
        count_char(PO_SUPPLIER_EQ@, '?') == 1,
{
    reveal_strlit("po.supplier_id = ?");
    reveal_with_fuel(count_upto, 41);
    let s = PO_SUPPLIER_EQ@;
    assert(s.len() == 18);
}

/// Filter condition `po.order_date >= ?`.
pub const PO_DATE_FROM: &'static str = "po.order_date >= ?";

/// `PO_DATE_FROM` holds 1 placeholder.
pub proof fn lemma_po_date_from()
    ensures
        count_char(PO_DATE_FROM@, '?') == 1,
{
    reveal_strlit("po.order_date >= ?");
    reveal_with_fuel(count_upto, 41);
    let s = PO_DATE_FROM@;
    assert(s.len() == 18);
}

/// Filter condition `po.order_date <= ?`.
pub const PO_DATE_TO: &'static str = "po.order_date <= ?";

/// `PO_DATE_TO` holds 1 placeholder.
pub proof fn lemma_po_date_to()
    ensures
        count_char(PO_DATE_TO@, '?') == 1,
{
    reveal_strlit("po.order_date <= ?");
    reveal_with_fuel(count_upto, 41);
    let s = PO_DATE_TO@;
    assert(s.len() == 18);
}

/// Sort column `po.order_no`.
pub const PO_COL_ORDER_NO: &'static str = "po.order_no";

/// `PO_COL_ORDER_NO` holds 0 placeholders.
pub proof fn lemma_po_col_order_no()
    ensures
        count_char(PO_COL_ORDER_NO@, '?') == 0,
{
    reveal_strlit("po.order_no");
    reveal_with_fuel(count_upto, 41);
    let s = PO_COL_ORDER_NO@;
    assert(s.len() == 11);
}

/// Sort column `po.order_date`.
pub const PO_COL_ORDER_DATE: &'static str = "po.order_date";

/// `PO_COL_ORDER_DATE` holds 0 placeholders.
pub proof fn lemma_po_col_order_date()
    ensures
        count_char(PO_COL_ORDER_DATE@, '?') == 0,
{
    reveal_strlit("po.order_date");
    reveal_with_fuel(count_upto, 41);
    let s = PO_COL_ORDER_DATE@;
    assert(s.len() == 13);
}

/// Sort column `po.status`.
pub const PO_COL_STATUS: &'static str = "po.status";

/// `PO_COL_STATUS` holds 0 placeholders.
pub proof fn lemma_po_col_status()
    ensures
        count_char(PO_COL_STATUS@, '?') == 0,
{
    reveal_strlit("po.status");
    reveal_with_fuel(count_upto, 41);
    let s = PO_COL_STATUS@;
    assert(s.len() == 9);
}

/// Sort column `po.total_amount`.
pub const PO_COL_TOTAL: &'static str = "po.total_amount";

/// `PO_COL_TOTAL` holds 0 placeholders.
pub proof fn lemma_po_col_total()
    ensures
        count_char(PO_COL_TOTAL@, '?') == 0,
{
    reveal_strlit("po.total_amount");
    reveal_with_fuel(count_upto, 41);
    let s = PO_COL_TOTAL@;
    assert(s.len() == 15);
}

/// Sort column `po.created_at`.
pub const PO_COL_CREATED_AT: &'static str = "po.created_at";

/// `PO_COL_CREATED_AT` holds 0 placeholders.
pub proof fn lemma_po_col_created_at()
    ensures
        count_char(PO_COL_CREATED_AT@, '?') == 0,
{
    reveal_strlit("po.created_at");
    reveal_with_fuel(count_upto, 41);
    let s = PO_COL_CREATED_AT@;
    assert(s.len() == 13);
}

/// Starts an update of a purchase order.
pub const PO_UPDATE_HEAD: &'static str = "UPDATE purchase_orders SET updated_at = datetime('now')";

/// Ends an update of one purchase order by id and returns its columns.
pub const PO_UPDATE_TAIL: &'static str = " WHERE id = ? AND deleted_at IS NULL RETURNING id, order_no, supplier_id, order_date, status, total_amount, notes, created_by, created_at, updated_at, deleted_at";

/// Starts an update of a purchase order item.
pub const PO_ITEM_UPDATE_HEAD: &'static str = "UPDATE purchase_order_items SET";

/// Ends an update of one purchase order item by id and returns its columns.
pub const PO_ITEM_UPDATE_TAIL: &'static str = " WHERE id = ? RETURNING id, order_id, pipe_type, grade, od, wt, quantity, received_quantity, unit_price, total_price, notes, created_at";

/// Stores a recomputed total price (`?1`) of one purchase order item (`?2`).
pub const PO_ITEM_TOTAL_UPDATE: &'static str = "UPDATE purchase_order_items SET total_price = ? WHERE id = ?";

/// `PO_ITEM_TOTAL_UPDATE` holds 2 placeholders.
pub proof fn lemma_po_item_total_update()
    ensures
        count_char(PO_ITEM_TOTAL_UPDATE@, '?') == 2,
{
    reveal_strlit("UPDATE purchase_order_items SET total_price = ? WHERE id = ?");
    reveal_with_fuel(count_upto, 41);
    let s = PO_ITEM_TOTAL_UPDATE@;
    assert(count_upto(s, '?', 40) == 0);
    assert(s.len() == 60);
}

/// Rejects a live purchase order and soft-deletes it, keeping the reason in its notes.
pub const PO_REJECT: &'static str = "UPDATE purchase_orders SET status = 'rejected', notes = ?, deleted_at = datetime('now'), updated_at = datetime('now') WHERE id = ? AND deleted_at IS NULL";

/// Reads one purchase order item by id.
pub const PO_ITEM_BY_ID: &'static str = "SELECT id, order_id, pipe_type, grade, od, wt, quantity, received_quantity, unit_price, total_price, notes, created_at FROM purchase_order_items WHERE id = ?";

/// Counts inbound records; the conditions follow.
pub const INBOUND_COUNT_HEAD: &'static str = "SELECT COUNT(*) as cnt FROM inbound_records WHERE ";

/// Selects inbound records; the conditions follow.
pub const INBOUND_ROWS_HEAD: &'static str = "SELECT id, inbound_no, inbound_type, order_id, supplier_id, notes, approval_status, rejection_reason, approval_reason, handled_by, handled_at, created_at, updated_at, deleted_at FROM inbound_records WHERE ";

/// Counts outbound records; the conditions follow.
pub const OUTBOUND_COUNT_HEAD: &'static str = "SELECT COUNT(*) as cnt FROM outbound_records WHERE ";

/// Selects outbound records; the conditions follow.
pub const OUTBOUND_ROWS_HEAD: &'static str = "SELECT id, outbound_no, outbound_type, order_id, customer_id, notes, approval_status, rejection_reason, approval_reason, handled_by, handled_at, created_at, updated_at, deleted_at FROM outbound_records WHERE ";

/// Inbound number pattern up to its placeholder number.
pub const INBOUND_NO_LIKE: &'static str = "inbound_no LIKE $";

/// Outbound number pattern up to its placeholder number.
pub const OUTBOUND_NO_LIKE: &'static str = "outbound_no LIKE $";

/// Inbound type condition up to its placeholder number.
pub const INBOUND_TYPE_IS: &'static str = "inbound_type = $";

/// Outbound type condition up to its placeholder number.
pub const OUTBOUND_TYPE_IS: &'static str = "outbound_type = $";

/// Approval status condition up to its placeholder number.
pub const APPROVAL_STATUS_IS: &'static str = "approval_status = $";

/// Order condition up to its placeholder number.
pub const ORDER_ID_IS: &'static str = "order_id = $";

/// Starts an update of an inbound record.
pub const INBOUND_UPDATE_HEAD: &'static str = "UPDATE inbound_records SET updated_at = NOW()";

/// Ends an update of one handled inbound record by id and returns its columns.
pub const INBOUND_UPDATE_TAIL: &'static str = " WHERE id = ? AND deleted_at IS NULL AND (approval_status = 'auto_approved' OR approval_status = 'rejected') RETURNING id, inbound_no, inbound_type, order_id, supplier_id, notes, approval_status, rejection_reason, approval_reason, handled_by, handled_at, created_at, updated_at, deleted_at";

/// Starts an update of an outbound record.
pub const OUTBOUND_UPDATE_HEAD: &'static str = "UPDATE outbound_records SET updated_at = NOW()";

/// Ends an update of one handled outbound record by id and returns its columns.
pub const OUTBOUND_UPDATE_TAIL: &'static str = " WHERE id = ? AND deleted_at IS NULL AND (approval_status = 'auto_approved' OR approval_status = 'rejected') RETURNING id, outbound_no, outbound_type, order_id, customer_id, notes, approval_status, rejection_reason, approval_reason, handled_by, handled_at, created_at, updated_at, deleted_at";

// ---------------------------------------------------------------------------
// Purchase orders
// ---------------------------------------------------------------------------

/// The filters of the purchase order list.
pub struct PurchaseOrderListFilter {
    pub q: Option<String>,
    pub status: Option<String>,
    pub supplier_id: Option<i64>,
    pub order_date_from: Option<String>,
    pub order_date_to: Option<String>,
}

/// The conditions of the purchase order list.
pub open spec fn po_clauses(f: PurchaseOrderListFilter) -> Seq<Seq<char>> {
    seq![PO_NOT_DELETED@] + clause_if(has_text(f.q), PO_SEARCH@) + clause_if(
        f.status is Some,
        PO_STATUS_EQ@,
    ) + clause_if(f.supplier_id is Some, PO_SUPPLIER_EQ@) + clause_if(
        f.order_date_from is Some,
        PO_DATE_FROM@,
    ) + clause_if(f.order_date_to is Some, PO_DATE_TO@)
}

/// The values bound to the purchase order conditions: `%q%` twice, the status, the
/// supplier id as its decimal text, the dates.
pub open spec fn po_params(f: PurchaseOrderListFilter) -> Seq<SqlValue> {
    (if has_text(f.q) {
        let p = SqlValue::Text(seq!['%'] + f.q.unwrap()@ + seq!['%']);
        seq![p, p]
    } else {
        Seq::empty()
    }) + string_param(f.status) + decimal_param(f.supplier_id) + string_param(f.order_date_from)
        + string_param(f.order_date_to)
}

/// Sort keys of the purchase order list and their columns.
pub open spec fn po_sort_view() -> Seq<(Seq<char>, Seq<char>)> {
    seq![
        ("order_no"@, PO_COL_ORDER_NO@),
        ("order_date"@, PO_COL_ORDER_DATE@),
        ("status"@, PO_COL_STATUS@),
        ("total_amount"@, PO_COL_TOTAL@),
    ]
}

fn po_conditions(f: &PurchaseOrderListFilter) -> (r: Conditions)
    ensures
        clauses_view(r.clauses@) == po_clauses(*f),
        params_view(r.params@) == po_params(*f),
        r.wf(),
{
    proof {
        lemma_po_not_deleted();
        lemma_po_search();
        lemma_po_status_eq();
        lemma_po_supplier_eq();
        lemma_po_date_from();
        lemma_po_date_to();
    }
    let mut c = Conditions::new();
    c.push_plain(PO_NOT_DELETED);
    match &f.q {
        Some(q) => {
            if q.unicode_len() > 0 {
                c.push2(
                    PO_SEARCH,
                    SqlParam::Text(like_contains(q.as_str())),
                    SqlParam::Text(like_contains(q.as_str())),
                );
            }
        },
        None => {},
    }
    let ghost c1 = clauses_view(c.clauses@);
    let ghost p1 = params_view(c.params@);
    proof {
        assert(c1 =~= seq![PO_NOT_DELETED@] + clause_if(has_text(f.q), PO_SEARCH@));
    }
    c.add_string(PO_STATUS_EQ, &f.status);
    let ghost c2 = clauses_view(c.clauses@);
    let ghost p2 = params_view(c.params@);
    match f.supplier_id {
        Some(id) => {
            let mut text = String::new();
            push_i64(&mut text, id);
            proof {
                assert(text@ =~= int_text(id as int));
            }
            c.push1(PO_SUPPLIER_EQ, SqlParam::Text(text));
        },
        None => {},
    }
    proof {
        assert(clauses_view(c.clauses@) =~= c2 + clause_if(f.supplier_id is Some, PO_SUPPLIER_EQ@));
        assert(params_view(c.params@) =~= p2 + decimal_param(f.supplier_id));
    }
    c.add_string(PO_DATE_FROM, &f.order_date_from);
    c.add_string(PO_DATE_TO, &f.order_date_to);
    proof {
        assert(clauses_view(c.clauses@) =~= po_clauses(*f));
        assert(params_view(c.params@) =~= po_params(*f));
    }
    c
}

impl PurchaseOrderRepo {
    /// The counting and page statements of the purchase order list: orders not
    /// deleted (joined with their supplier), a non-empty search text matching the
    /// order number or the supplier's name, each other given filter, ordered by the
    /// requested column (or `po.created_at`), one page.
    pub fn list_query(
        filter: &PurchaseOrderListFilter,
        sort_by: Option<&str>,
        order: SortOrder,
        page_size: i64,
        offset: i64,
    ) -> (r: ListQuery)
        ensures
            r.count@.sql == PO_COUNT_HEAD@ + conditions_text(po_clauses(*filter), ""@),
            r.count@.params == po_params(*filter),
            r.list@.sql == PO_ROWS_HEAD@ + conditions_text(po_clauses(*filter), ""@) + order_suffix(
                lookup_column(key_view(sort_by), po_sort_view(), PO_COL_CREATED_AT@),
                order,
                LIMIT_OFFSET@,
            ),
            r.list@.params == po_params(*filter) + seq![
                SqlValue::Int(page_size),
                SqlValue::Int(offset),
            ],
            well_bound(r.count@),
            well_bound(r.list@),
    {
        let a = po_conditions(filter);
        let b = po_conditions(filter);
        proof {
            lemma_po_col_order_no();
            lemma_po_col_order_date();
            lemma_po_col_status();
            lemma_po_col_total();
            lemma_po_col_created_at();
        }
        let keys = vec![
            ("order_no", PO_COL_ORDER_NO),
            ("order_date", PO_COL_ORDER_DATE),
            ("status", PO_COL_STATUS),
            ("total_amount", PO_COL_TOTAL),
        ];
        proof {
            assert(table_view(keys@) =~= po_sort_view());
        }
        let col = pick_column(sort_by, &keys, PO_COL_CREATED_AT);
        proof {
            lemma_listed_plain(col@, keys@, PO_COL_CREATED_AT@);
            lemma_po_count_head();
            lemma_po_rows_head();
        }
        plain_page(PO_COUNT_HEAD, PO_ROWS_HEAD, a, b, col, order, page_size, offset)
    }
}

/// Which fields of a purchase order update carry a new value.
pub struct PurchaseOrderChanges {
    pub order_date: bool,
    pub notes: bool,
}

/// The columns a purchase order update may set, in the order it sets them.
pub open spec fn purchase_order_changes_columns() -> Seq<Seq<char>> {
    seq!["order_date"@, "notes"@]
}

/// The presence flags of a purchase order update in column order.
pub open spec fn purchase_order_changes_flags(c: PurchaseOrderChanges) -> Seq<bool> {
    seq![c.order_date, c.notes]
}

impl PurchaseOrderRepo {
    /// The update of one row by id: `updated_at` is always reset, each supplied
    /// field is set, and the row comes back.  The new values are bound in the order
    /// of `columns`, then the id.
    pub fn update_order_plan(changes: &PurchaseOrderChanges) -> (r: UpdatePlan)
        ensures
            names_view(r.columns@) == chosen(purchase_order_changes_columns(), purchase_order_changes_flags(*changes)),
            r.sql@ == PO_UPDATE_HEAD@ + appended_sets(chosen(purchase_order_changes_columns(), purchase_order_changes_flags(*changes))) + PO_UPDATE_TAIL@,
    {
        let names: Vec<&'static str> = vec!["order_date", "notes"];
        let flags: Vec<bool> = vec![changes.order_date, changes.notes];
        proof {
            assert(names_view(names@) =~= purchase_order_changes_columns());
            assert(flags@ =~= purchase_order_changes_flags(*changes));
        }
        appended_update(PO_UPDATE_HEAD, &names, &flags, PO_UPDATE_TAIL)
    }
}

/// Which fields of a purchase order item update carry a new value.
pub struct PurchaseItemChanges {
    pub pipe_type: bool,
    pub grade: bool,
    pub od: bool,
    pub wt: bool,
    pub quantity: bool,
    pub unit_price: bool,
    pub notes: bool,
}

/// The columns an item update may set, in the order it sets them.
pub open spec fn purchase_item_columns() -> Seq<Seq<char>> {
    seq!["pipe_type"@, "grade"@, "od"@, "wt"@, "quantity"@, "unit_price"@, "notes"@]
}

/// The presence flags of an item update in column order.
pub open spec fn purchase_item_flags(c: PurchaseItemChanges) -> Seq<bool> {
    seq![c.pipe_type, c.grade, c.od, c.wt, c.quantity, c.unit_price, c.notes]
}

/// What an update of a purchase order item does: the update statement, and
/// whether the item's total price is then recomputed, stored with
/// `PO_ITEM_TOTAL_UPDATE` and the item read back with `item_by_id_query`.
pub struct PurchaseItemUpdate {
    pub plan: UpdatePlan,
    pub refresh_total: bool,
}

impl PurchaseOrderRepo {
    /// The update of one purchase order item by id: ` col = ?` for each supplied
    /// field, separated by commas, and the item comes back; `None` when no field is
    /// supplied (an update with nothing to set is refused).  After an update that
    /// set the quantity or the unit price the total price is recomputed.
    pub fn update_item_plan(changes: &PurchaseItemChanges) -> (r: Option<PurchaseItemUpdate>)
        ensures
            r is None <==> !(changes.pipe_type || changes.grade || changes.od || changes.wt
                || changes.quantity || changes.unit_price || changes.notes),
            r matches Some(u) ==> names_view(u.plan.columns@) == chosen(
                purchase_item_columns(),
                purchase_item_flags(*changes),
            ) && u.plan.sql@ == PO_ITEM_UPDATE_HEAD@ + listed_sets(
                chosen(purchase_item_columns(), purchase_item_flags(*changes)),
                ","@,
            ) + PO_ITEM_UPDATE_TAIL@,
            r matches Some(u) ==> u.refresh_total == (changes.quantity || changes.unit_price),
    {
        let names: Vec<&'static str> = vec![
            "pipe_type",
            "grade",
            "od",
            "wt",
            "quantity",
            "unit_price",
            "notes",
        ];
        let flags: Vec<bool> = vec![
            changes.pipe_type,
            changes.grade,
            changes.od,
            changes.wt,
            changes.quantity,
            changes.unit_price,
            changes.notes,
        ];
        proof {
            assert(names_view(names@) =~= purchase_item_columns());
            assert(flags@ =~= purchase_item_flags(*changes));
            reveal_with_fuel(chosen, 8);
        }
        let any = changes.pipe_type || changes.grade || changes.od || changes.wt || changes.quantity
            || changes.unit_price || changes.notes;
        if !any {
            return None;
        }
        let plan = listed_update(PO_ITEM_UPDATE_HEAD, &names, &flags, ",", PO_ITEM_UPDATE_TAIL);
        Some(PurchaseItemUpdate { plan, refresh_total: changes.quantity || changes.unit_price })
    }

    /// Reads one purchase order item back by id.
    pub fn item_by_id_query(item_id: i64) -> (r: SqlQuery)
        ensures
            r@.sql == PO_ITEM_BY_ID@,
            r@.params == seq![SqlValue::Int(item_id)],
    {
        let mut params: Vec<SqlParam> = Vec::new();
        params.push(SqlParam::Int(item_id));
        proof {
            assert(params_view(params@) =~= seq![SqlValue::Int(item_id)]);
        }
        SqlQuery { sql: String::from_str(PO_ITEM_BY_ID), params }
    }

    /// Rejects purchase order `id`: the status becomes `rejected`, the reason is
    /// stored in its notes, and the order is soft-deleted (no longer found).
    pub fn reject_query(id: i64, reason: &str) -> (r: SqlQuery)
        ensures
            r@.sql == PO_REJECT@,
            r@.params == seq![SqlValue::Text(reason@), SqlValue::Int(id)],
    {
        let mut params: Vec<SqlParam> = Vec::new();
        params.push(SqlParam::Text(String::from_str(reason)));
        params.push(SqlParam::Int(id));
        proof {
            assert(params_view(params@) =~= seq![SqlValue::Text(reason@), SqlValue::Int(id)]);
        }
        SqlQuery { sql: String::from_str(PO_REJECT), params }
    }
}

// ---------------------------------------------------------------------------
// Inbound and outbound records
// ---------------------------------------------------------------------------

/// The direction of a stock record.
#[derive(PartialEq, Eq, Structural, Clone, Copy)]
pub enum Direction {
    Inbound,
    Outbound,
}

/// The filters of a stock record list.
pub struct RecordFilter {
    pub q: Option<String>,
    pub record_type: Option<String>,
    pub approval_status: Option<String>,
    pub order_id: Option<i64>,
}

/// The number pattern condition of a direction, up to its placeholder number.
pub open spec fn no_like(d: Direction) -> Seq<char> {
    match d {
        Direction::Inbound => INBOUND_NO_LIKE@,
        Direction::Outbound => OUTBOUND_NO_LIKE@,
    }
}

/// The type condition of a direction, up to its placeholder number.
pub open spec fn type_is(d: Direction) -> Seq<char> {
    match d {
        Direction::Inbound => INBOUND_TYPE_IS@,
        Direction::Outbound => OUTBOUND_TYPE_IS@,
    }
}

/// The count start of a direction's list.
pub open spec fn record_count_head(d: Direction) -> Seq<char> {
    match d {
        Direction::Inbound => INBOUND_COUNT_HEAD@,
        Direction::Outbound => OUTBOUND_COUNT_HEAD@,
    }
}

/// The row selection start of a direction's list.
pub open spec fn record_rows_head(d: Direction) -> Seq<char> {
    match d {
        Direction::Inbound => INBOUND_ROWS_HEAD@,
        Direction::Outbound => OUTBOUND_ROWS_HEAD@,
    }
}

/// The values bound before the type condition.
pub open spec fn record_before_type(f: RecordFilter) -> int {
    if has_text(f.q) {
        1
    } else {
        0
    }
}

/// The values bound before the approval condition.
pub open spec fn record_before_status(f: RecordFilter) -> int {
    record_before_type(f) + (if f.record_type is Some {
        1int
    } else {
        0
    })
}

/// The values bound before the order condition.
pub open spec fn record_before_order(f: RecordFilter) -> int {
    record_before_status(f) + (if f.approval_status is Some {
        1int
    } else {
        0
    })
}

/// The conditions of a stock record list: each placeholder numbered one past the
/// values bound before it.
pub open spec fn record_clauses(d: Direction, f: RecordFilter) -> Seq<Seq<char>> {
    seq![NOT_DELETED@] + clause_if(has_text(f.q), no_like(d) + int_text(1)) + clause_if(
        f.record_type is Some,
        type_is(d) + int_text(record_before_type(f) + 1),
    ) + clause_if(
        f.approval_status is Some,
        APPROVAL_STATUS_IS@ + int_text(record_before_status(f) + 1),
    ) + clause_if(f.order_id is Some, ORDER_ID_IS@ + int_text(record_before_order(f) + 1))
}

/// The values bound to a stock record list's conditions: `%q%`, the type, the
/// approval status, the order id as its decimal text.
pub open spec fn record_params(f: RecordFilter) -> Seq<SqlValue> {
    (if has_text(f.q) {
        seq![SqlValue::Text(seq!['%'] + f.q.unwrap()@ + seq!['%'])]
    } else {
        Seq::empty()
    }) + string_param(f.record_type) + string_param(f.approval_status) + decimal_param(f.order_id)
}

/// Sort keys of a direction's list, each naming its own column.
pub open spec fn record_sort_view(d: Direction) -> Seq<(Seq<char>, Seq<char>)> {
    match d {
        Direction::Inbound => seq![
            ("inbound_no"@, "inbound_no"@),
            ("inbound_type"@, "inbound_type"@),
            ("approval_status"@, "approval_status"@),
        ],
        Direction::Outbound => seq![
            ("outbound_no"@, "outbound_no"@),
            ("outbound_type"@, "outbound_type"@),
            ("approval_status"@, "approval_status"@),
        ],
    }
}

/// The counting and page statements of a stock record list: records not deleted,
/// narrowed by each given filter, ordered by the requested column (or
/// `created_at`), then ` LIMIT $k+1 OFFSET $k+2` with the page size and the offset
/// bound after the `k` filter values.
pub fn record_list_query(
    d: Direction,
    filter: &RecordFilter,
    sort_by: Option<&str>,
    order: SortOrder,
    page_size: i64,
    offset: i64,
) -> (r: ListQuery)
    ensures
        r.count@.sql == record_count_head(d) + join_with(record_clauses(d, *filter), " AND "@),
        r.count@.params == record_params(*filter),
        r.list@.sql == record_rows_head(d) + join_with(record_clauses(d, *filter), " AND "@)
            + order_suffix(
            lookup_column(key_view(sort_by), record_sort_view(d), "created_at"@),
            order,
            numbered_page(record_params(*filter).len() as int),
        ),
        r.list@.params == record_params(*filter) + seq![
            SqlValue::Int(page_size),
            SqlValue::Int(offset),
        ],
{
    let (count_head, rows_head, no_like_text, type_text) = match d {
        Direction::Inbound => (INBOUND_COUNT_HEAD, INBOUND_ROWS_HEAD, INBOUND_NO_LIKE, INBOUND_TYPE_IS),
        Direction::Outbound => (OUTBOUND_COUNT_HEAD, OUTBOUND_ROWS_HEAD, OUTBOUND_NO_LIKE, OUTBOUND_TYPE_IS),
    };
    let mut conds: Vec<String> = Vec::new();
    let mut params: Vec<SqlParam> = Vec::new();
    conds.push(String::from_str(NOT_DELETED));
    proof {
        assert(strings_view(conds@) =~= seq![NOT_DELETED@]);
        assert(params_view(params@) =~= Seq::<SqlValue>::empty());
    }
    match &filter.q {
        Some(q) => {
            if q.unicode_len() > 0 {
                push_numbered_value(&mut conds, &mut params, no_like_text, SqlParam::Text(like_contains(q.as_str())));
            }
        },
        None => {},
    }
    let ghost c1 = strings_view(conds@);
    let ghost p1 = params_view(params@);
    proof {
        assert(c1 =~= seq![NOT_DELETED@] + clause_if(has_text(filter.q), no_like(d) + int_text(1)));
        assert(params@.len() == record_before_type(*filter));
    }
    match &filter.record_type {
        Some(t) => {
            push_numbered_value(&mut conds, &mut params, type_text, SqlParam::Text(String::from_str(t.as_str())));
        },
        None => {},
    }
    let ghost c2 = strings_view(conds@);
    let ghost p2 = params_view(params@);
    proof {
        assert(c2 =~= c1 + clause_if(filter.record_type is Some, type_is(d) + int_text(record_before_type(*filter) + 1)));
        assert(p2 =~= p1 + string_param(filter.record_type));
        assert(params@.len() == record_before_status(*filter));
    }
    match &filter.approval_status {
        Some(t) => {
            push_numbered_value(&mut conds, &mut params, APPROVAL_STATUS_IS, SqlParam::Text(String::from_str(t.as_str())));
        },
        None => {},
    }
    let ghost c3 = strings_view(conds@);
    let ghost p3 = params_view(params@);
    proof {
        assert(c3 =~= c2 + clause_if(filter.approval_status is Some, APPROVAL_STATUS_IS@ + int_text(record_before_status(*filter) + 1)));
        assert(p3 =~= p2 + string_param(filter.approval_status));
        assert(params@.len() == record_before_order(*filter));
    }
    match filter.order_id {
        Some(id) => {
            let mut text = String::new();
            push_i64(&mut text, id);
            proof {
                assert(text@ =~= int_text(id as int));
            }
            push_numbered_value(&mut conds, &mut params, ORDER_ID_IS, SqlParam::Text(text));
        },
        None => {},
    }
    proof {
        assert(strings_view(conds@) =~= record_clauses(d, *filter));
        assert(params_view(params@) =~= record_params(*filter));
    }
    let keys = match d {
        Direction::Inbound => vec![
            ("inbound_no", "inbound_no"),
            ("inbound_type", "inbound_type"),
            ("approval_status", "approval_status"),
        ],
        Direction::Outbound => vec![
            ("outbound_no", "outbound_no"),
            ("outbound_type", "outbound_type"),
            ("approval_status", "approval_status"),
        ],
    };
    proof {
        assert(table_view(keys@) =~= record_sort_view(d));
    }
    let col = pick_column(sort_by, &keys, "created_at");
    let mut page: Vec<SqlParam> = Vec::new();
    page.push(SqlParam::Int(page_size));
    page.push(SqlParam::Int(offset));
    proof {
        assert(params_view(page@) =~= seq![SqlValue::Int(page_size), SqlValue::Int(offset)]);
    }
    proof {
        assert(params@.len() <= 4);
    }
    let tail = numbered_page_text(params.len());
    text_page(count_head, rows_head, &conds, &params, col, order, tail.as_str(), &page)
}

impl InboundRepo {
    /// The inbound record list; see `record_list_query`.
    pub fn list_query(
        filter: &RecordFilter,
        sort_by: Option<&str>,
        order: SortOrder,
        page_size: i64,
        offset: i64,
    ) -> (r: ListQuery)
        ensures
            r.count@.sql == INBOUND_COUNT_HEAD@ + join_with(
                record_clauses(Direction::Inbound, *filter),
                " AND "@,
            ),
            r.count@.params == record_params(*filter),
            r.list@.sql == INBOUND_ROWS_HEAD@ + join_with(
                record_clauses(Direction::Inbound, *filter),
                " AND "@,
            ) + order_suffix(
                lookup_column(key_view(sort_by), record_sort_view(Direction::Inbound), "created_at"@),
                order,
                numbered_page(record_params(*filter).len() as int),
            ),
            r.list@.params == record_params(*filter) + seq![
                SqlValue::Int(page_size),
                SqlValue::Int(offset),
            ],
    {
        record_list_query(Direction::Inbound, filter, sort_by, order, page_size, offset)
    }
}

impl OutboundRepo {
    /// The outbound record list; see `record_list_query`.
    pub fn list_query(
        filter: &RecordFilter,
        sort_by: Option<&str>,
        order: SortOrder,
        page_size: i64,
        offset: i64,
    ) -> (r: ListQuery)
        ensures
            r.count@.sql == OUTBOUND_COUNT_HEAD@ + join_with(
                record_clauses(Direction::Outbound, *filter),
                " AND "@,
            ),
            r.count@.params == record_params(*filter),
            r.list@.sql == OUTBOUND_ROWS_HEAD@ + join_with(
                record_clauses(Direction::Outbound, *filter),
                " AND "@,
            ) + order_suffix(
                lookup_column(key_view(sort_by), record_sort_view(Direction::Outbound), "created_at"@),
                order,
                numbered_page(record_params(*filter).len() as int),
            ),
            r.list@.params == record_params(*filter) + seq![
                SqlValue::Int(page_size),
                SqlValue::Int(offset),
            ],
    {
        record_list_query(Direction::Outbound, filter, sort_by, order, page_size, offset)
    }
}

/// Which fields of an inbound record update carry a new value.
pub struct InboundChanges {
    pub notes: bool,
    pub order_id: bool,
    pub supplier_id: bool,
}

/// The columns an inbound record update may set, in the order it sets them.
pub open spec fn inbound_changes_columns() -> Seq<Seq<char>> {
    seq!["notes"@, "order_id"@, "supplier_id"@]
}

/// The presence flags of an inbound record update in column order.
pub open spec fn inbound_changes_flags(c: InboundChanges) -> Seq<bool> {
    seq![c.notes, c.order_id, c.supplier_id]
}

impl InboundRepo {
    /// The update of one handled record by id (auto-approved or rejected, not
    /// deleted): `updated_at` is always reset, each supplied field is set, and the
    /// record comes back.  The new values are bound in the order of `columns`, then
    /// the id.
    pub fn update_plan(changes: &InboundChanges) -> (r: UpdatePlan)
        ensures
            names_view(r.columns@) == chosen(inbound_changes_columns(), inbound_changes_flags(*changes)),
            r.sql@ == INBOUND_UPDATE_HEAD@ + appended_sets(chosen(inbound_changes_columns(), inbound_changes_flags(*changes))) + INBOUND_UPDATE_TAIL@,
    {
        let names: Vec<&'static str> = vec!["notes", "order_id", "supplier_id"];
        let flags: Vec<bool> = vec![changes.notes, changes.order_id, changes.supplier_id];
        proof {
            assert(names_view(names@) =~= inbound_changes_columns());
            assert(flags@ =~= inbound_changes_flags(*changes));
        }
        appended_update(INBOUND_UPDATE_HEAD, &names, &flags, INBOUND_UPDATE_TAIL)
    }
}

/// Which fields of an outbound record update carry a new value.
pub struct OutboundChanges {
    pub notes: bool,
    pub order_id: bool,
    pub customer_id: bool,
}

/// The columns an outbound record update may set, in the order it sets them.
pub open spec fn outbound_changes_columns() -> Seq<Seq<char>> {
    seq!["notes"@, "order_id"@, "customer_id"@]
}

/// The presence flags of an outbound record update in column order.
pub open spec fn outbound_changes_flags(c: OutboundChanges) -> Seq<bool> {
    seq![c.notes, c.order_id, c.customer_id]
}

impl OutboundRepo {
    /// The update of one handled record by id (auto-approved or rejected, not
    /// deleted): `updated_at` is always reset, each supplied field is set, and the
    /// record comes back.  The new values are bound in the order of `columns`, then
    /// the id.
    pub fn update_plan(changes: &OutboundChanges) -> (r: UpdatePlan)
        ensures
            names_view(r.columns@) == chosen(outbound_changes_columns(), outbound_changes_flags(*changes)),
            r.sql@ == OUTBOUND_UPDATE_HEAD@ + appended_sets(chosen(outbound_changes_columns(), outbound_changes_flags(*changes))) + OUTBOUND_UPDATE_TAIL@,
    {
        let names: Vec<&'static str> = vec!["notes", "order_id", "customer_id"];
        let flags: Vec<bool> = vec![changes.notes, changes.order_id, changes.customer_id];
        proof {
            assert(names_view(names@) =~= outbound_changes_columns());
            assert(flags@ =~= outbound_changes_flags(*changes));
        }
        appended_update(OUTBOUND_UPDATE_HEAD, &names, &flags, OUTBOUND_UPDATE_TAIL)
    }
}

/// Sets the approval status and reason of an inbound record.
pub const INBOUND_REJECT: &'static str = "UPDATE inbound_records SET approval_status = $1, rejection_reason = $2, updated_at = NOW() WHERE id = $3 AND deleted_at IS NULL";

/// Sets the approval status of an inbound record and clears its reason.
pub const INBOUND_DECIDE: &'static str = "UPDATE inbound_records SET approval_status = $1, rejection_reason = NULL, updated_at = NOW() WHERE id = $2 AND deleted_at IS NULL";

/// Sets the approval status and reason of an outbound record.
pub const OUTBOUND_REJECT: &'static str = "UPDATE outbound_records SET approval_status = $1, rejection_reason = $2, updated_at = NOW() WHERE id = $3 AND deleted_at IS NULL";

/// Sets the approval status of an outbound record and clears its reason.
pub const OUTBOUND_DECIDE: &'static str = "UPDATE outbound_records SET approval_status = $1, rejection_reason = NULL, updated_at = NOW() WHERE id = $2 AND deleted_at IS NULL";

/// The status statement of a direction: with a reason, or clearing it.
pub open spec fn status_sql(d: Direction, with_reason: bool) -> Seq<char> {
    match (d, with_reason) {
        (Direction::Inbound, true) => INBOUND_REJECT@,
        (Direction::Inbound, false) => INBOUND_DECIDE@,
        (Direction::Outbound, true) => OUTBOUND_REJECT@,
        (Direction::Outbound, false) => OUTBOUND_DECIDE@,
    }
}

/// The statement that sets the approval status of record `id`: with the rejection
/// reason when one is given, else clearing the reason.
pub fn record_status_query(d: Direction, id: i64, status: &str, rejection_reason: Option<&str>) -> (r:
    crate::query::SqlQuery)
    ensures
        r@.sql == status_sql(d, rejection_reason is Some),
        rejection_reason matches Some(reason) ==> r@.params == seq![
            SqlValue::Text(status@),
            SqlValue::Text(reason@),
            SqlValue::Int(id),
        ],
        rejection_reason is None ==> r@.params == seq![SqlValue::Text(status@), SqlValue::Int(id)],
{
    let mut params: Vec<SqlParam> = Vec::new();
    params.push(SqlParam::Text(String::from_str(status)));
    let sql = match rejection_reason {
        Some(reason) => {
            params.push(SqlParam::Text(String::from_str(reason)));
            match d {
                Direction::Inbound => INBOUND_REJECT,
                Direction::Outbound => OUTBOUND_REJECT,
            }
        },
        None => match d {
            Direction::Inbound => INBOUND_DECIDE,
            Direction::Outbound => OUTBOUND_DECIDE,
        },
    };
    params.push(SqlParam::Int(id));
    proof {
        if rejection_reason is Some {
            assert(params_view(params@) =~= seq![
                SqlValue::Text(status@),
                SqlValue::Text(rejection_reason.unwrap()@),
                SqlValue::Int(id),
            ]);
        } else {
            assert(params_view(params@) =~= seq![SqlValue::Text(status@), SqlValue::Int(id)]);
        }
    }
    crate::query::SqlQuery { sql: String::from_str(sql), params }
}


/// Approves a pending inbound record with an optional reason and handler,
/// clearing any rejection reason; a record already processed is left as it is.
pub const INBOUND_APPROVE: &'static str = "UPDATE inbound_records SET approval_status = 'approved', rejection_reason = NULL, approval_reason = $1, handled_by = $2, handled_at = NOW(), updated_at = NOW() WHERE id = $3 AND deleted_at IS NULL AND approval_status = 'pending'";

/// Approves a pending outbound record with an optional reason and handler,
/// clearing any rejection reason.
pub const OUTBOUND_APPROVE: &'static str = "UPDATE outbound_records SET approval_status = 'approved', rejection_reason = NULL, approval_reason = $1, handled_by = $2, handled_at = NOW(), updated_at = NOW() WHERE id = $3 AND deleted_at IS NULL AND approval_status = 'pending'";

/// The approval statement of a direction.
pub open spec fn approve_sql(d: Direction) -> Seq<char> {
    match d {
        Direction::Inbound => INBOUND_APPROVE@,
        Direction::Outbound => OUTBOUND_APPROVE@,
    }
}

/// The approval of record `id`: the reason (or NULL), the handler (or NULL), then the
/// id.  A record is approved only while it is pending and not deleted; the number of
/// rows changed says whether it was (0 for a record already processed).
pub fn record_approve_query(d: Direction, id: i64, approval_reason: Option<&str>, handled_by: Option<i64>) -> (r: SqlQuery)
    ensures
        r@.sql == approve_sql(d),
        r@.params == seq![nullable_text(approval_reason), nullable_int(handled_by), SqlValue::Int(id)],
{
    let mut params: Vec<SqlParam> = Vec::new();
    params.push(nullable_param(approval_reason));
    params.push(nullable_int_param(handled_by));
    params.push(SqlParam::Int(id));
    proof {
        assert(params_view(params@) =~= seq![
            nullable_text(approval_reason),
            nullable_int(handled_by),
            SqlValue::Int(id),
        ]);
    }
    let sql = match d {
        Direction::Inbound => INBOUND_APPROVE,
        Direction::Outbound => OUTBOUND_APPROVE,
    };
    SqlQuery { sql: String::from_str(sql), params }
}

impl InboundRepo {
    /// Approves inbound record `id` while it is pending (see `record_approve_query`).
    pub fn approve_query(id: i64, approval_reason: Option<&str>, handled_by: Option<i64>) -> (r: SqlQuery)
        ensures
            r@.sql == INBOUND_APPROVE@,
            r@.params == seq![nullable_text(approval_reason), nullable_int(handled_by), SqlValue::Int(id)],
    {
        record_approve_query(Direction::Inbound, id, approval_reason, handled_by)
    }
}

impl OutboundRepo {
    /// Approves outbound record `id` while it is pending (see `record_approve_query`).
    pub fn approve_query(id: i64, approval_reason: Option<&str>, handled_by: Option<i64>) -> (r: SqlQuery)
        ensures
            r@.sql == OUTBOUND_APPROVE@,
            r@.params == seq![nullable_text(approval_reason), nullable_int(handled_by), SqlValue::Int(id)],
    {
        record_approve_query(Direction::Outbound, id, approval_reason, handled_by)
    }
}

// ---------------------------------------------------------------------------
// Creating inbound and outbound records
// ---------------------------------------------------------------------------

/// Inserts one inbound record and returns it.
pub const INBOUND_CREATE: &'static str = "INSERT INTO inbound_records (inbound_no, inbound_type, order_id, supplier_id, notes, approval_status) VALUES ($1, $2, $3, $4, $5, $6) RETURNING id, inbound_no, inbound_type, order_id, supplier_id, notes, approval_status, rejection_reason, approval_reason, handled_by, handled_at, created_at, updated_at, deleted_at";

/// Inserts one outbound record and returns it.
pub const OUTBOUND_CREATE: &'static str = "INSERT INTO outbound_records (outbound_no, outbound_type, order_id, customer_id, notes, approval_status) VALUES ($1, $2, $3, $4, $5, $6) RETURNING id, outbound_no, outbound_type, order_id, customer_id, notes, approval_status, rejection_reason, approval_reason, handled_by, handled_at, created_at, updated_at, deleted_at";

/// Inserts one pipe of an inbound record.
pub const INBOUND_ITEM_CREATE: &'static str = "INSERT INTO inbound_items (inbound_id, pipe_type, pipe_id) VALUES ($1, $2, $3)";

/// Inserts one pipe of an outbound record.
pub const OUTBOUND_ITEM_CREATE: &'static str = "INSERT INTO outbound_items (outbound_id, pipe_type, pipe_id) VALUES ($1, $2, $3)";

/// The approval status a new record starts with: a purchase inbound and a sales
/// outbound are approved on creation, every other record waits for approval.
pub open spec fn initial_approval(d: Direction, record_type: Seq<char>) -> Seq<char> {
    let approved_type = match d {
        Direction::Inbound => "purchase"@,
        Direction::Outbound => "sales"@,
    };
    if record_type == approved_type {
        "auto_approved"@
    } else {
        "pending"@
    }
}

/// A new inbound record is approved on creation exactly when it is a purchase
/// receipt, and a new outbound record exactly when it is a sale; every other record
/// (a transfer, a return, an adjustment, ...) starts pending.
pub proof fn lemma_only_purchases_and_sales_skip_approval(d: Direction, record_type: Seq<char>)
    ensures
        (initial_approval(d, record_type) == "auto_approved"@) == (match d {
            Direction::Inbound => record_type == "purchase"@,
            Direction::Outbound => record_type == "sales"@,
        }),
        initial_approval(d, record_type) == "auto_approved"@ || initial_approval(d, record_type)
            == "pending"@,
{
    reveal_strlit("auto_approved");
    reveal_strlit("pending");
    assert("auto_approved"@.len() != "pending"@.len());
}

/// The approval status a new record of type `record_type` starts with.
pub fn initial_approval_status(d: Direction, record_type: &str) -> (r: &'static str)
    ensures
        r@ == initial_approval(d, record_type@),
{
    let approved_type = match d {
        Direction::Inbound => "purchase",
        Direction::Outbound => "sales",
    };
    if str_eq(record_type, approved_type) {
        "auto_approved"
    } else {
        "pending"
    }
}

/// A parameter that is `NULL` when the value is absent.
pub open spec fn nullable_int(v: Option<i64>) -> SqlValue {
    match v {
        Some(n) => SqlValue::Int(n),
        None => SqlValue::Null,
    }
}

fn nullable_int_param(v: Option<i64>) -> (r: SqlParam)
    ensures
        r@ == nullable_int(v),
{
    match v {
        Some(n) => SqlParam::Int(n),
        None => SqlParam::Null,
    }
}

/// The insertion of a new inbound (`Inbound`, with its supplier) or outbound
/// (`Outbound`, with its customer) record: its number, type, order, party and notes,
/// and the approval status its type starts with.
pub fn create_record_query(
    d: Direction,
    record_no: &str,
    record_type: &str,
    order_id: Option<i64>,
    party_id: Option<i64>,
    notes: Option<&str>,
) -> (r: crate::query::SqlQuery)
    ensures
        r@.sql == (match d {
            Direction::Inbound => INBOUND_CREATE@,
            Direction::Outbound => OUTBOUND_CREATE@,
        }),
        r@.params == seq![
            SqlValue::Text(record_no@),
            SqlValue::Text(record_type@),
            nullable_int(order_id),
            nullable_int(party_id),
            crate::query::nullable_text(notes),
            SqlValue::Text(initial_approval(d, record_type@)),
        ],
{
    let mut params: Vec<SqlParam> = Vec::new();
    params.push(SqlParam::Text(String::from_str(record_no)));
    params.push(SqlParam::Text(String::from_str(record_type)));
    params.push(nullable_int_param(order_id));
    params.push(nullable_int_param(party_id));
    params.push(crate::query::nullable_param(notes));
    params.push(SqlParam::Text(String::from_str(initial_approval_status(d, record_type))));
    proof {
        assert(params_view(params@) =~= seq![
            SqlValue::Text(record_no@),
            SqlValue::Text(record_type@),
            nullable_int(order_id),
            nullable_int(party_id),
            crate::query::nullable_text(notes),
            SqlValue::Text(initial_approval(d, record_type@)),
        ]);
    }
    let sql = match d {
        Direction::Inbound => INBOUND_CREATE,
        Direction::Outbound => OUTBOUND_CREATE,
    };
    crate::query::SqlQuery { sql: String::from_str(sql), params }
}

/// The insertion of one pipe of record `record_id`.
pub fn create_record_item_query(d: Direction, record_id: i64, pipe_type: &str, pipe_id: i64) -> (r:
    crate::query::SqlQuery)
    ensures
        r@.sql == (match d {
            Direction::Inbound => INBOUND_ITEM_CREATE@,
            Direction::Outbound => OUTBOUND_ITEM_CREATE@,
        }),
        r@.params == seq![
            SqlValue::Int(record_id),
            SqlValue::Text(pipe_type@),
            SqlValue::Int(pipe_id),
        ],
{
    let mut params: Vec<SqlParam> = Vec::new();
    params.push(SqlParam::Int(record_id));
    params.push(SqlParam::Text(String::from_str(pipe_type)));
    params.push(SqlParam::Int(pipe_id));
    proof {
        assert(params_view(params@) =~= seq![
            SqlValue::Int(record_id),
            SqlValue::Text(pipe_type@),
            SqlValue::Int(pipe_id),
        ]);
    }
    let sql = match d {
        Direction::Inbound => INBOUND_ITEM_CREATE,
        Direction::Outbound => OUTBOUND_ITEM_CREATE,
    };
    crate::query::SqlQuery { sql: String::from_str(sql), params }
}

/// Finds live purchase order `id`.
pub const PO_FIND_BY_ID: &'static str = "SELECT id, order_no, supplier_id, order_date, status, total_amount, notes, created_by, created_at, updated_at, deleted_at FROM purchase_orders WHERE id = ? AND deleted_at IS NULL";

/// Finds the live purchase order numbered `order_no`.
pub const PO_FIND_BY_ORDER_NO: &'static str = "SELECT id, order_no, supplier_id, order_date, status, total_amount, notes, created_by, created_at, updated_at, deleted_at FROM purchase_orders WHERE order_no = ? AND deleted_at IS NULL";

/// The items of purchase order `order_id`, by id.
pub const PO_FIND_ITEMS: &'static str = "SELECT id, order_id, pipe_type, grade, od, wt, quantity, received_quantity, unit_price, total_price, notes, created_at FROM purchase_order_items WHERE order_id = ? ORDER BY id ASC";

/// Soft-deletes purchase order `id`.
pub const PO_DELETE: &'static str = "UPDATE purchase_orders SET deleted_at = datetime('now'), updated_at = datetime('now') WHERE id = ? AND deleted_at IS NULL";

/// Deletes purchase order item `item_id` (items are not soft-deleted).
pub const PO_DELETE_ITEM: &'static str = "DELETE FROM purchase_order_items WHERE id = ?";

impl PurchaseOrderRepo {
    /// Finds live purchase order `id`.
    pub fn find_by_id_query(id: i64) -> (r: SqlQuery)
        ensures
            r@.sql == PO_FIND_BY_ID@,
            r@.params == seq![SqlValue::Int(id)],
    {
        let mut params: Vec<SqlParam> = Vec::new();
        params.push(SqlParam::Int(id));
        proof {
            assert(params_view(params@) =~= seq![SqlValue::Int(id)]);
        }
        SqlQuery { sql: owned(PO_FIND_BY_ID), params }
    }

    /// Finds the live purchase order numbered `order_no`.
    pub fn find_by_order_no_query(order_no: &str) -> (r: SqlQuery)
        ensures
            r@.sql == PO_FIND_BY_ORDER_NO@,
            r@.params == seq![SqlValue::Text(order_no@)],
    {
        let mut params: Vec<SqlParam> = Vec::new();
        params.push(SqlParam::Text(owned(order_no)));
        proof {
            assert(params_view(params@) =~= seq![SqlValue::Text(order_no@)]);
        }
        SqlQuery { sql: owned(PO_FIND_BY_ORDER_NO), params }
    }

    /// The items of purchase order `order_id`, by id.
    pub fn find_items_query(order_id: i64) -> (r: SqlQuery)
        ensures
            r@.sql == PO_FIND_ITEMS@,
            r@.params == seq![SqlValue::Int(order_id)],
    {
        let mut params: Vec<SqlParam> = Vec::new();
        params.push(SqlParam::Int(order_id));
        proof {
            assert(params_view(params@) =~= seq![SqlValue::Int(order_id)]);
        }
        SqlQuery { sql: owned(PO_FIND_ITEMS), params }
    }

    /// Soft-deletes purchase order `id`.
    pub fn delete_query(id: i64) -> (r: SqlQuery)
        ensures
            r@.sql == PO_DELETE@,
            r@.params == seq![SqlValue::Int(id)],
    {
        let mut params: Vec<SqlParam> = Vec::new();
        params.push(SqlParam::Int(id));
        proof {
            assert(params_view(params@) =~= seq![SqlValue::Int(id)]);
        }
        SqlQuery { sql: owned(PO_DELETE), params }
    }

    /// Deletes purchase order item `item_id` (items are not soft-deleted).
    pub fn delete_item_query(item_id: i64) -> (r: SqlQuery)
        ensures
            r@.sql == PO_DELETE_ITEM@,
            r@.params == seq![SqlValue::Int(item_id)],
    {
        let mut params: Vec<SqlParam> = Vec::new();
        params.push(SqlParam::Int(item_id));
        proof {
            assert(params_view(params@) =~= seq![SqlValue::Int(item_id)]);
        }
        SqlQuery { sql: owned(PO_DELETE_ITEM), params }
    }
}

/// Finds live inbound record `id`.
pub const INBOUND_BY_ID: &'static str = "SELECT id, inbound_no, inbound_type, order_id, supplier_id, notes, approval_status, rejection_reason, approval_reason, handled_by, handled_at, created_at, updated_at, deleted_at FROM inbound_records WHERE id = $1 AND deleted_at IS NULL";

/// The pipes of inbound record `inbound_id`, by id.
pub const INBOUND_ITEMS: &'static str = "SELECT id, inbound_id, pipe_type, pipe_id, created_at FROM inbound_items WHERE inbound_id = $1 ORDER BY id";

/// Links live inbound record `inbound_id` to purchase order `order_id`.
pub const INBOUND_LINK: &'static str = "UPDATE inbound_records SET order_id = $1, updated_at = NOW() WHERE id = $2 AND deleted_at IS NULL";

/// The live inbound records of purchase order `order_id`.
pub const INBOUND_BY_ORDER: &'static str = "SELECT id, inbound_no, inbound_type, order_id, supplier_id, notes, approval_status, rejection_reason, approval_reason, handled_by, handled_at, created_at, updated_at, deleted_at FROM inbound_records WHERE order_id = $1 AND deleted_at IS NULL";

/// Soft-deletes inbound record `id`.
pub const INBOUND_SOFT_DELETE: &'static str = "UPDATE inbound_records SET deleted_at = NOW(), updated_at = NOW() WHERE id = $1 AND deleted_at IS NULL";

impl InboundRepo {
    /// Finds live inbound record `id`.
    pub fn find_by_id_query(id: i64) -> (r: SqlQuery)
        ensures
            r@.sql == INBOUND_BY_ID@,
            r@.params == seq![SqlValue::Int(id)],
    {
        let mut params: Vec<SqlParam> = Vec::new();
        params.push(SqlParam::Int(id));
        proof {
            assert(params_view(params@) =~= seq![SqlValue::Int(id)]);
        }
        SqlQuery { sql: owned(INBOUND_BY_ID), params }
    }

    /// The pipes of inbound record `inbound_id`, by id.
    pub fn find_items_query(inbound_id: i64) -> (r: SqlQuery)
        ensures
            r@.sql == INBOUND_ITEMS@,
            r@.params == seq![SqlValue::Int(inbound_id)],
    {
        let mut params: Vec<SqlParam> = Vec::new();
        params.push(SqlParam::Int(inbound_id));
        proof {
            assert(params_view(params@) =~= seq![SqlValue::Int(inbound_id)]);
        }
        SqlQuery { sql: owned(INBOUND_ITEMS), params }
    }

    /// Links live inbound record `inbound_id` to purchase order `order_id`.
    pub fn link_to_order_query(inbound_id: i64, order_id: i64) -> (r: SqlQuery)
        ensures
            r@.sql == INBOUND_LINK@,
            r@.params == seq![SqlValue::Int(order_id), SqlValue::Int(inbound_id)],
    {
        let mut params: Vec<SqlParam> = Vec::new();
        params.push(SqlParam::Int(order_id));
        params.push(SqlParam::Int(inbound_id));
        proof {
            assert(params_view(params@) =~= seq![SqlValue::Int(order_id), SqlValue::Int(inbound_id)]);
        }
        SqlQuery { sql: owned(INBOUND_LINK), params }
    }

    /// The live inbound records of purchase order `order_id`.
    pub fn find_by_order_id_query(order_id: i64) -> (r: SqlQuery)
        ensures
            r@.sql == INBOUND_BY_ORDER@,
            r@.params == seq![SqlValue::Int(order_id)],
    {
        let mut params: Vec<SqlParam> = Vec::new();
        params.push(SqlParam::Int(order_id));
        proof {
            assert(params_view(params@) =~= seq![SqlValue::Int(order_id)]);
        }
        SqlQuery { sql: owned(INBOUND_BY_ORDER), params }
    }

    /// Soft-deletes inbound record `id`.
    pub fn delete_query(id: i64) -> (r: SqlQuery)
        ensures
            r@.sql == INBOUND_SOFT_DELETE@,
            r@.params == seq![SqlValue::Int(id)],
    {
        let mut params: Vec<SqlParam> = Vec::new();
        params.push(SqlParam::Int(id));
        proof {
            assert(params_view(params@) =~= seq![SqlValue::Int(id)]);
        }
        SqlQuery { sql: owned(INBOUND_SOFT_DELETE), params }
    }
}

/// Finds live outbound record `id`.
pub const OUTBOUND_BY_ID: &'static str = "SELECT id, outbound_no, outbound_type, order_id, customer_id, notes, approval_status, rejection_reason, approval_reason, handled_by, handled_at, created_at, updated_at, deleted_at FROM outbound_records WHERE id = $1 AND deleted_at IS NULL";

/// The pipes of outbound record `outbound_id`, by id.
pub const OUTBOUND_ITEMS: &'static str = "SELECT id, outbound_id, pipe_type, pipe_id, created_at FROM outbound_items WHERE outbound_id = $1 ORDER BY id";

/// Links live outbound record `outbound_id` to sales order `order_id`.
pub const OUTBOUND_LINK: &'static str = "UPDATE outbound_records SET order_id = $1, updated_at = NOW() WHERE id = $2 AND deleted_at IS NULL";

/// The live outbound records of sales order `order_id`.
pub const OUTBOUND_BY_ORDER: &'static str = "SELECT id, outbound_no, outbound_type, order_id, customer_id, notes, approval_status, rejection_reason, approval_reason, handled_by, handled_at, created_at, updated_at, deleted_at FROM outbound_records WHERE order_id = $1 AND deleted_at IS NULL";

/// Soft-deletes outbound record `id`.
pub const OUTBOUND_SOFT_DELETE: &'static str = "UPDATE outbound_records SET deleted_at = NOW(), updated_at = NOW() WHERE id = $1 AND deleted_at IS NULL";

impl OutboundRepo {
    /// Finds live outbound record `id`.
    pub fn find_by_id_query(id: i64) -> (r: SqlQuery)
        ensures
            r@.sql == OUTBOUND_BY_ID@,
            r@.params == seq![SqlValue::Int(id)],
    {
        let mut params: Vec<SqlParam> = Vec::new();
        params.push(SqlParam::Int(id));
        proof {
            assert(params_view(params@) =~= seq![SqlValue::Int(id)]);
        }
        SqlQuery { sql: owned(OUTBOUND_BY_ID), params }
    }

    /// The pipes of outbound record `outbound_id`, by id.
    pub fn find_items_query(outbound_id: i64) -> (r: SqlQuery)
        ensures
            r@.sql == OUTBOUND_ITEMS@,
            r@.params == seq![SqlValue::Int(outbound_id)],
    {
        let mut params: Vec<SqlParam> = Vec::new();
        params.push(SqlParam::Int(outbound_id));
        proof {
            assert(params_view(params@) =~= seq![SqlValue::Int(outbound_id)]);
        }
        SqlQuery { sql: owned(OUTBOUND_ITEMS), params }
    }

    /// Links live outbound record `outbound_id` to sales order `order_id`.
    pub fn link_to_order_query(outbound_id: i64, order_id: i64) -> (r: SqlQuery)
        ensures
            r@.sql == OUTBOUND_LINK@,
            r@.params == seq![SqlValue::Int(order_id), SqlValue::Int(outbound_id)],
    {
        let mut params: Vec<SqlParam> = Vec::new();
        params.push(SqlParam::Int(order_id));
        params.push(SqlParam::Int(outbound_id));
        proof {
            assert(params_view(params@) =~= seq![SqlValue::Int(order_id), SqlValue::Int(outbound_id)]);
        }
        SqlQuery { sql: owned(OUTBOUND_LINK), params }
    }

    /// The live outbound records of sales order `order_id`.
    pub fn find_by_order_id_query(order_id: i64) -> (r: SqlQuery)
        ensures
            r@.sql == OUTBOUND_BY_ORDER@,
            r@.params == seq![SqlValue::Int(order_id)],
    {
        let mut params: Vec<SqlParam> = Vec::new();
        params.push(SqlParam::Int(order_id));
        proof {
            assert(params_view(params@) =~= seq![SqlValue::Int(order_id)]);
        }
        SqlQuery { sql: owned(OUTBOUND_BY_ORDER), params }
    }

    /// Soft-deletes outbound record `id`.
    pub fn delete_query(id: i64) -> (r: SqlQuery)
        ensures
            r@.sql == OUTBOUND_SOFT_DELETE@,
            r@.params == seq![SqlValue::Int(id)],
    {
        let mut params: Vec<SqlParam> = Vec::new();
        params.push(SqlParam::Int(id));
        proof {
            assert(params_view(params@) =~= seq![SqlValue::Int(id)]);
        }
        SqlQuery { sql: owned(OUTBOUND_SOFT_DELETE), params }
    }
}

/// Creates purchase order `order_no` as a draft with a zero total and returns it; its items follow.
pub const PO_CREATE: &'static str = "INSERT INTO purchase_orders (order_no, supplier_id, order_date, status, total_amount, notes) VALUES (?, ?, ?, 'draft', 0, ?) RETURNING id, order_no, supplier_id, order_date, status, total_amount, notes, created_by, created_at, updated_at, deleted_at";

impl PurchaseOrderRepo {
    /// Creates purchase order `order_no` as a draft with a zero total and returns it; its items follow.
    pub fn create_query(order_no: &str, supplier_id: i64, order_date: &str, notes: Option<&str>) -> (r: SqlQuery)
        ensures
            r@.sql == PO_CREATE@,
            r@.params == seq![SqlValue::Text(order_no@), SqlValue::Int(supplier_id), SqlValue::Text(order_date@), nullable_text(notes)],
    {
        let mut params: Vec<SqlParam> = Vec::new();
        params.push(SqlParam::Text(owned(order_no)));
        params.push(SqlParam::Int(supplier_id));
        params.push(SqlParam::Text(owned(order_date)));
        params.push(nullable_param(notes));
        proof {
            assert(params_view(params@) =~= seq![SqlValue::Text(order_no@), SqlValue::Int(supplier_id), SqlValue::Text(order_date@), nullable_text(notes)]);
        }
        SqlQuery { sql: owned(PO_CREATE), params }
    }
}

/// Each supplied field of a purchase order update sets the column of the same name, and
/// no other field does: a column is among those set exactly when its own field
/// is supplied.
pub proof fn lemma_purchase_order_sets_named_columns(c: PurchaseOrderChanges)
    ensures
        chosen(purchase_order_changes_columns(), purchase_order_changes_flags(c)).contains("order_date"@) == c.order_date,
        chosen(purchase_order_changes_columns(), purchase_order_changes_flags(c)).contains("notes"@) == c.notes,
{
    let cols = purchase_order_changes_columns();
    let flags = purchase_order_changes_flags(c);
    reveal_strlit("order_date");
    reveal_strlit("notes");
    assert(cols.len() == 2 && flags.len() == 2);
    assert(cols[0].len() != cols[1].len());
    assert(cols.no_duplicates());
    lemma_chosen_exactly_flagged(cols, flags, 0);
    assert(cols[0] == "order_date"@ && flags[0] == c.order_date);
    lemma_chosen_exactly_flagged(cols, flags, 1);
    assert(cols[1] == "notes"@ && flags[1] == c.notes);
}

/// Each supplied field of a purchase order item update sets the column of the same name, and
/// no other field does: a column is among those set exactly when its own field
/// is supplied.
pub proof fn lemma_purchase_item_sets_named_columns(c: PurchaseItemChanges)
    ensures
        chosen(purchase_item_columns(), purchase_item_flags(c)).contains("pipe_type"@) == c.pipe_type,
        chosen(purchase_item_columns(), purchase_item_flags(c)).contains("grade"@) == c.grade,
        chosen(purchase_item_columns(), purchase_item_flags(c)).contains("od"@) == c.od,
        chosen(purchase_item_columns(), purchase_item_flags(c)).contains("wt"@) == c.wt,
        chosen(purchase_item_columns(), purchase_item_flags(c)).contains("quantity"@) == c.quantity,
        chosen(purchase_item_columns(), purchase_item_flags(c)).contains("unit_price"@) == c.unit_price,
        chosen(purchase_item_columns(), purchase_item_flags(c)).contains("notes"@) == c.notes,
{
    let cols = purchase_item_columns();
    let flags = purchase_item_flags(c);
    reveal_strlit("pipe_type");
    reveal_strlit("grade");
    reveal_strlit("od");
    reveal_strlit("wt");
    reveal_strlit("quantity");
    reveal_strlit("unit_price");
    reveal_strlit("notes");
    assert(cols.len() == 7 && flags.len() == 7);
    assert(cols[0].len() != cols[1].len());
    assert(cols[0].len() != cols[2].len());
    assert(cols[0].len() != cols[3].len());
    assert(cols[0].len() != cols[4].len());
    assert(cols[0].len() != cols[5].len());
    assert(cols[0].len() != cols[6].len());
    assert(cols[1].len() != cols[2].len());
    assert(cols[1].len() != cols[3].len());
    assert(cols[1].len() != cols[4].len());
    assert(cols[1].len() != cols[5].len());
    assert(cols[1][0] != cols[6][0]);
    assert(cols[2][0] != cols[3][0]);
    assert(cols[2].len() != cols[4].len());
    assert(cols[2].len() != cols[5].len());
    assert(cols[2].len() != cols[6].len());
    assert(cols[3].len() != cols[4].len());
    assert(cols[3].len() != cols[5].len());
    assert(cols[3].len() != cols[6].len());
    assert(cols[4].len() != cols[5].len());
    assert(cols[4].len() != cols[6].len());
    assert(cols[5].len() != cols[6].len());
    assert(cols.no_duplicates());
    lemma_chosen_exactly_flagged(cols, flags, 0);
    assert(cols[0] == "pipe_type"@ && flags[0] == c.pipe_type);
    lemma_chosen_exactly_flagged(cols, flags, 1);
    assert(cols[1] == "grade"@ && flags[1] == c.grade);
    lemma_chosen_exactly_flagged(cols, flags, 2);
    assert(cols[2] == "od"@ && flags[2] == c.od);
    lemma_chosen_exactly_flagged(cols, flags, 3);
    assert(cols[3] == "wt"@ && flags[3] == c.wt);
    lemma_chosen_exactly_flagged(cols, flags, 4);
    assert(cols[4] == "quantity"@ && flags[4] == c.quantity);
    lemma_chosen_exactly_flagged(cols, flags, 5);
    assert(cols[5] == "unit_price"@ && flags[5] == c.unit_price);
    lemma_chosen_exactly_flagged(cols, flags, 6);
    assert(cols[6] == "notes"@ && flags[6] == c.notes);
}

/// Each supplied field of a inbound record update sets the column of the same name, and
/// no other field does: a column is among those set exactly when its own field
/// is supplied.
pub proof fn lemma_inbound_sets_named_columns(c: InboundChanges)
    ensures
        chosen(inbound_changes_columns(), inbound_changes_flags(c)).contains("notes"@) == c.notes,
        chosen(inbound_changes_columns(), inbound_changes_flags(c)).contains("order_id"@) == c.order_id,
        chosen(inbound_changes_columns(), inbound_changes_flags(c)).contains("supplier_id"@) == c.supplier_id,
{
    let cols = inbound_changes_columns();
    let flags = inbound_changes_flags(c);
    reveal_strlit("notes");
    reveal_strlit("order_id");
    reveal_strlit("supplier_id");
    assert(cols.len() == 3 && flags.len() == 3);
    assert(cols[0].len() != cols[1].len());
    assert(cols[0].len() != cols[2].len());
    assert(cols[1].len() != cols[2].len());
    assert(cols.no_duplicates());
    lemma_chosen_exactly_flagged(cols, flags, 0);
    assert(cols[0] == "notes"@ && flags[0] == c.notes);
    lemma_chosen_exactly_flagged(cols, flags, 1);
    assert(cols[1] == "order_id"@ && flags[1] == c.order_id);
    lemma_chosen_exactly_flagged(cols, flags, 2);
    assert(cols[2] == "supplier_id"@ && flags[2] == c.supplier_id);
}

/// Each supplied field of a outbound record update sets the column of the same name, and
/// no other field does: a column is among those set exactly when its own field
/// is supplied.
pub proof fn lemma_outbound_sets_named_columns(c: OutboundChanges)
    ensures
        chosen(outbound_changes_columns(), outbound_changes_flags(c)).contains("notes"@) == c.notes,
        chosen(outbound_changes_columns(), outbound_changes_flags(c)).contains("order_id"@) == c.order_id,
        chosen(outbound_changes_columns(), outbound_changes_flags(c)).contains("customer_id"@) == c.customer_id,
{
    let cols = outbound_changes_columns();
    let flags = outbound_changes_flags(c);
    reveal_strlit("notes");
    reveal_strlit("order_id");
    reveal_strlit("customer_id");
    assert(cols.len() == 3 && flags.len() == 3);
    assert(cols[0].len() != cols[1].len());
    assert(cols[0].len() != cols[2].len());
    assert(cols[1].len() != cols[2].len());
    assert(cols.no_duplicates());
    lemma_chosen_exactly_flagged(cols, flags, 0);
    assert(cols[0] == "notes"@ && flags[0] == c.notes);
    lemma_chosen_exactly_flagged(cols, flags, 1);
    assert(cols[1] == "order_id"@ && flags[1] == c.order_id);
    lemma_chosen_exactly_flagged(cols, flags, 2);
    assert(cols[2] == "customer_id"@ && flags[2] == c.customer_id);
}

} // verus!
