//! Report helpers: period grouping expressions, status totals, labels, table
//! allowlists and the movement report query.
use vstd::prelude::*;
use crate::site_repos::{days_back, days_back_text};
use crate::query::SqlParam;
use crate::error::{AppError, AppErrorView, ErrorCode};
use crate::query::{
    clause_if, clauses_view, conditions_text, filtered, int_param, params_view, text_param,
    well_bound, Conditions, SqlQuery, SqlValue,
};
use crate::sql_text::{
    lemma_il_created_from, lemma_il_created_to, lemma_il_item_id_eq, lemma_movements_list,
    lemma_recent_logs_limit, IL_CREATED_FROM, IL_CREATED_TO, IL_ITEM_ID_EQ, MONTHLY_GROUP,
    MOVEMENTS_LIST, QUARTERLY_GROUP, RECENT_LOGS_LIMIT, YEARLY_GROUP,
};
use crate::text::{owned, str_eq};

verus! {

/// Aggregation queries for the dashboard and the reports.
pub struct ReportRepo;

/// The SQL expression that groups orders by the period `date_trunc` names:
/// `monthly`, `quarterly` or `yearly`; anything else groups by month.
pub open spec fn period_expr(date_trunc: Seq<char>) -> Seq<char> {
    if date_trunc == "quarterly"@ {
        QUARTERLY_GROUP@
    } else if date_trunc == "yearly"@ {
        YEARLY_GROUP@
    } else {
        MONTHLY_GROUP@
    }
}

/// Orders are grouped by year for `yearly` and by quarter for `quarterly` only; every
/// other request, `monthly` among them, groups by calendar month
/// (`strftime('%Y-%m', order_date)`).
pub proof fn lemma_period_grouping(t: Seq<char>)
    ensures
        period_expr("monthly"@) == "strftime('%Y-%m', order_date)"@,
        (period_expr(t) == YEARLY_GROUP@) == (t == "yearly"@),
        (period_expr(t) == QUARTERLY_GROUP@) == (t == "quarterly"@),
        t != "yearly"@ && t != "quarterly"@ ==> period_expr(t) == "strftime('%Y-%m', order_date)"@,
{
    reveal_strlit("monthly");
    reveal_strlit("quarterly");
    reveal_strlit("yearly");
    reveal_strlit("strftime('%Y-%m', order_date)");
    reveal_strlit("strftime('%Y', order_date)");
    reveal_strlit("strftime('%Y', order_date) || '-Q' || CAST(((CAST(strftime('%m', order_date) AS INTEGER) + 2) / 3) AS TEXT)");
    assert("monthly"@.len() != "quarterly"@.len());
    assert("monthly"@ != "yearly"@) by {
        assert("monthly"@[0] != "yearly"@[0]);
    }
    assert(MONTHLY_GROUP@.len() != YEARLY_GROUP@.len());
    assert(MONTHLY_GROUP@.len() != QUARTERLY_GROUP@.len());
    assert(YEARLY_GROUP@.len() != QUARTERLY_GROUP@.len());
}

impl ReportRepo {
    /// The grouping expression of the order reports for `date_trunc`.
    pub fn period_group_expr(date_trunc: &str) -> (r: String)
        ensures
            r@ == period_expr(date_trunc@),
    {
        if str_eq(date_trunc, "monthly") {
            proof {
                reveal_strlit("monthly");
                reveal_strlit("quarterly");
                reveal_strlit("yearly");
                assert("monthly"@ != "quarterly"@ && "monthly"@ != "yearly"@) by {
                    assert("monthly"@.len() != "quarterly"@.len());
                    assert("monthly"@[0] != "yearly"@[0]);
                }
            }
            owned(MONTHLY_GROUP)
        } else if str_eq(date_trunc, "quarterly") {
            owned(QUARTERLY_GROUP)
        } else if str_eq(date_trunc, "yearly") {
            owned(YEARLY_GROUP)
        } else {
            owned(MONTHLY_GROUP)
        }
    }
}

/// The sum of the first `n` counts.
pub open spec fn counts_sum(rows: Seq<(String, i64)>, n: int) -> int
    decreases n,
{
    if n <= 0 {
        0
    } else {
        counts_sum(rows, n - 1) + rows[n - 1].1
    }
}

/// Every running sum of the counts fits an `i64` (the `sum()` of the status report).
pub open spec fn counts_sum_fits(rows: Seq<(String, i64)>) -> bool {
    forall|n: int| 0 <= n <= rows.len() ==> i64::MIN <= #[trigger] counts_sum(rows, n) <= i64::MAX
}

/// The status report: a first entry `("total", sum of all counts)`, then every
/// `(status, count)` row in the given order.
pub fn status_totals(rows: Vec<(String, i64)>) -> (r: Vec<(String, i64)>)
    requires
        counts_sum_fits(rows@),
    ensures
        r@.len() == rows@.len() + 1,
        r@[0].0@ == "total"@,
        r@[0].1 == counts_sum(rows@, rows@.len() as int),
        forall|i: int| 0 <= i < rows@.len() ==> #[trigger] r@[i + 1] == rows@[i],
{
    let mut total: i64 = 0;
    let mut i: usize = 0;
    while i < rows.len()
        invariant
            i <= rows@.len(),
            counts_sum_fits(rows@),
            total == counts_sum(rows@, i as int),
        decreases rows@.len() - i,
    {
        proof {
            assert(i64::MIN <= counts_sum(rows@, i as int + 1) <= i64::MAX);
        }
        total = total + rows[i].1;
        i = i + 1;
    }
    let mut result: Vec<(String, i64)> = Vec::new();
    result.push((owned("total"), total));
    let ghost first = result@;
    let mut rest = rows;
    let ghost rv = rest@;
    result.append(&mut rest);
    proof {
        assert forall|i: int| 0 <= i < rv.len() implies #[trigger] result@[i + 1] == rv[i] by {
            assert(result@ == first + rv);
        }
    }
    result
}

/// The label of an item category: the category, or `uncategorized` when it has none.
pub fn category_label(category: Option<String>) -> (r: String)
    ensures
        category matches Some(c) ==> r@ == c@,
        category is None ==> r@ == "uncategorized"@,
{
    match category {
        Some(c) => c,
        None => owned("uncategorized"),
    }
}

/// The pending approval count: pending inbound and outbound records and pending
/// purchase and sales orders.
pub fn pending_total(inbound: i64, outbound: i64, purchase: i64, sales: i64) -> (r: i64)
    requires
        i64::MIN <= inbound + outbound <= i64::MAX,
        i64::MIN <= inbound + outbound + purchase <= i64::MAX,
        i64::MIN <= inbound + outbound + purchase + sales <= i64::MAX,
    ensures
        r == inbound + outbound + purchase + sales,
{
    inbound + outbound + purchase + sales
}

/// The tables whose orders the status distribution report may group.
pub open spec fn report_table_allowed(table: Seq<char>) -> bool {
    table == "purchase_orders"@ || table == "sales_orders"@
}

/// Refuses a table name outside the allowlist (`Invalid table: <name>`), so that
/// only those names are ever written into the report's SQL.
pub fn check_report_table(table: &str) -> (r: Result<(), AppError>)
    ensures
        r is Ok <==> report_table_allowed(table@),
        r matches Err(e) ==> e@ == AppErrorView::BadRequest("Invalid table: "@ + table@),
{
    if str_eq(table, "purchase_orders") || str_eq(table, "sales_orders") {
        Ok(())
    } else {
        let mut msg = owned("Invalid table: ");
        msg.append(table);
        Err(AppError::BadRequest(msg))
    }
}

/// The conditions of the movement report: item, then from date, then to date.
pub open spec fn movement_clauses(
    item_id: Option<i64>,
    start_date: Option<&str>,
    end_date: Option<&str>,
) -> Seq<Seq<char>> {
    clause_if(item_id is Some, IL_ITEM_ID_EQ@) + clause_if(start_date is Some, IL_CREATED_FROM@)
        + clause_if(end_date is Some, IL_CREATED_TO@)
}

/// The query of the inbound/outbound movement report: movements with their
/// item's SKU and name, for the given item and date range, the latest thousand.
pub fn movements_query(item_id: Option<i64>, start_date: Option<&str>, end_date: Option<&str>) -> (r:
    SqlQuery)
    ensures
        r@.sql == MOVEMENTS_LIST@ + conditions_text(
            movement_clauses(item_id, start_date, end_date),
            " AND "@,
        ) + RECENT_LOGS_LIMIT@,
        r@.params == int_param(item_id) + text_param(start_date) + text_param(end_date),
        well_bound(r@),
{
    proof {
        lemma_il_item_id_eq();
        lemma_il_created_from();
        lemma_il_created_to();
        lemma_movements_list();
        lemma_recent_logs_limit();
        crate::query::lemma_and_sep();
    }
    let mut c = Conditions::new();
    proof {
        assert(clauses_view(c.clauses@) =~= Seq::<Seq<char>>::empty());
        assert(params_view(c.params@) =~= Seq::<SqlValue>::empty());
    }
    c.add_int(IL_ITEM_ID_EQ, item_id);
    c.add_text(IL_CREATED_FROM, start_date);
    c.add_text(IL_CREATED_TO, end_date);
    proof {
        assert(clauses_view(c.clauses@) =~= movement_clauses(item_id, start_date, end_date));
        assert(params_view(c.params@) =~= int_param(item_id) + text_param(start_date)
            + text_param(end_date));
    }
    filtered(MOVEMENTS_LIST, " AND ", c, RECENT_LOGS_LIMIT)
}

/// One record or order waiting for approval.
pub struct PendingRef {
    pub id: i64,
    pub reference_no: String,
    pub reference_type: String,
}

/// The view of a pending reference: id, number and type.
pub open spec fn pending_view(p: PendingRef) -> (i64, Seq<char>, Seq<char>) {
    (p.id, p.reference_no@, p.reference_type@)
}

/// The views of pending references.
pub open spec fn pendings_view(ps: Seq<PendingRef>) -> Seq<(i64, Seq<char>, Seq<char>)> {
    ps.map_values(|p: PendingRef| pending_view(p))
}

/// The views of rows `(id, number, type)` as the pending queries return them.
pub open spec fn pending_rows_view(rows: Seq<(i64, String, String)>) -> Seq<(i64, Seq<char>, Seq<char>)> {
    rows.map_values(|r: (i64, String, String)| (r.0, r.1@, r.2@))
}

fn append_pending(out: &mut Vec<PendingRef>, rows: &Vec<(i64, String, String)>)
    ensures
        pendings_view(final(out)@) == pendings_view(old(out)@) + pending_rows_view(rows@),
{
    let ghost start = pendings_view(out@);
    let ghost rv = pending_rows_view(rows@);
    let mut i: usize = 0;
    while i < rows.len()
        invariant
            i <= rows.len(),
            rv == pending_rows_view(rows@),
            pendings_view(out@) == start + rv.take(i as int),
        decreases rows.len() - i,
    {
        let ghost before = out@;
        let p = PendingRef { id: rows[i].0, reference_no: rows[i].1.clone(), reference_type: rows[i].2.clone() };
        out.push(p);
        proof {
            assert(out@ =~= before.push(p));
            assert(rv.take(i as int + 1) =~= rv.take(i as int).push(rv[i as int]));
            assert(pendings_view(out@) =~= pendings_view(before).push(pending_view(p)));
        }
        i = i + 1;
    }
    proof {
        assert(rv.take(rows.len() as int) =~= rv);
    }
}

/// The pending approvals of the dashboard: the pending inbound records, then the
/// outbound records, then the purchase orders, then the sales orders, each list in
/// the order its query returned it.
pub fn pending_references(
    inbound: &Vec<(i64, String, String)>,
    outbound: &Vec<(i64, String, String)>,
    purchase: &Vec<(i64, String, String)>,
    sales: &Vec<(i64, String, String)>,
) -> (r: Vec<PendingRef>)
    ensures
        pendings_view(r@) == pending_rows_view(inbound@) + pending_rows_view(outbound@)
            + pending_rows_view(purchase@) + pending_rows_view(sales@),
{
    let mut out: Vec<PendingRef> = Vec::new();
    proof {
        assert(pendings_view(out@) =~= Seq::<(i64, Seq<char>, Seq<char>)>::empty());
    }
    append_pending(&mut out, inbound);
    append_pending(&mut out, outbound);
    append_pending(&mut out, purchase);
    append_pending(&mut out, sales);
    proof {
        assert(pendings_view(out@) =~= pending_rows_view(inbound@) + pending_rows_view(outbound@)
            + pending_rows_view(purchase@) + pending_rows_view(sales@));
    }
    out
}

/// The reports module's spare error path: it always fails with the internal error
/// `unused`.
pub fn _unused() -> (r: Result<(), AppError>)
    ensures
        r matches Err(e) && e@ == AppErrorView::Coded(ErrorCode::Internal, "unused"@),
{
    Err(AppError::new(ErrorCode::Internal, "unused"))
}

/// Live items counted per status, the largest count first.
pub const REPORT_INVENTORY_BY_STATUS: &'static str = "SELECT status, COUNT(*) as cnt FROM items WHERE deleted_at IS NULL GROUP BY status ORDER BY cnt DESC";

/// Live items counted per category, the largest count first.
pub const REPORT_INVENTORY_BY_CATEGORY: &'static str = "SELECT category, COUNT(*) as cnt FROM items WHERE deleted_at IS NULL GROUP BY category ORDER BY cnt DESC";

/// The moved quantity per movement type, the largest first.
pub const REPORT_INVENTORY_BY_TYPE: &'static str = "SELECT change_type, CAST(COALESCE(SUM(quantity), 0.0) AS REAL) as total_quantity FROM inventory_logs GROUP BY change_type ORDER BY total_quantity DESC";

/// Each active location with its capacity, use, free room and use in whole percent, by code.
pub const REPORT_LOCATION_OCCUPANCY: &'static str = "SELECT l.full_code, COALESCE(l.capacity, 0) as capacity, l.used_count, (COALESCE(l.capacity, 0) - l.used_count) as available, CASE WHEN l.capacity > 0 THEN CAST(ROUND(l.used_count * 100.0 / l.capacity) AS INTEGER) ELSE 0 END as occupancy_pct FROM locations l              WHERE l.is_active = 1 AND l.deleted_at IS NULL ORDER BY l.full_code";

/// The `limit` suppliers with the largest purchase totals, with their order counts.
pub const REPORT_TOP_SUPPLIERS: &'static str = "SELECT s.name, COUNT(*) as order_count, CAST(COALESCE(SUM(po.total_amount), 0.0) AS REAL) as total_amount FROM purchase_orders po JOIN suppliers s ON po.supplier_id = s.id WHERE po.deleted_at IS NULL AND s.deleted_at IS NULL GROUP BY s.id, s.name ORDER BY total_amount DESC LIMIT ?";

/// The `limit` customers with the largest sales totals, with their order counts.
pub const REPORT_TOP_CUSTOMERS: &'static str = "SELECT c.name, COUNT(*) as order_count, CAST(COALESCE(SUM(so.total_amount), 0.0) AS REAL) as total_amount FROM sales_orders so JOIN customers c ON so.customer_id = c.id WHERE so.deleted_at IS NULL AND c.deleted_at IS NULL GROUP BY c.id, c.name ORDER BY total_amount DESC LIMIT ?";

/// Passed and failed inspections per item SKU, the most passes first.
pub const REPORT_QUALITY_PASS_FAIL_BY_GRADE: &'static str = "SELECT i.sku, SUM(CASE WHEN mi.result = 'pass' THEN 1 ELSE 0 END) as pass_count, SUM(CASE WHEN mi.result = 'fail' THEN 1 ELSE 0 END) as fail_count FROM mfg_inspections mi LEFT JOIN items i ON i.id = mi.item_id GROUP BY i.sku ORDER BY pass_count DESC";

/// Inspections per month (total, passed, failed), the twelve newest months.
pub const REPORT_INSPECTIONS_BY_MONTH: &'static str = "SELECT strftime('%Y-%m', inspected_at) as month, COUNT(*) as total, SUM(CASE WHEN result = 'pass' THEN 1 ELSE 0 END) as passed, SUM(CASE WHEN result = 'fail' THEN 1 ELSE 0 END) as failed FROM mfg_inspections WHERE inspected_at IS NOT NULL GROUP BY month ORDER BY month DESC LIMIT 12";

/// Counts the active items of the item master.
pub const REPORT_TOTAL_STOCK: &'static str = "SELECT COUNT(*) FROM items WHERE deleted_at IS NULL AND status = 'active'";

/// Counts the live inbound records of the last thirty days.
pub const REPORT_INBOUND_COUNT_30D: &'static str = "SELECT COUNT(*) FROM inbound_records WHERE created_at >= datetime('now', '-30 days') AND deleted_at IS NULL";

/// Counts the live outbound records of the last thirty days.
pub const REPORT_OUTBOUND_COUNT_30D: &'static str = "SELECT COUNT(*) FROM outbound_records WHERE created_at >= datetime('now', '-30 days') AND deleted_at IS NULL";

/// The `limit` newest open nonconformance reports.
pub const REPORT_RECENT_QUALITY_FAILURES: &'static str = "SELECT ncr_no, description, item_id, created_at, disposition FROM mfg_ncrs WHERE status = 'open' ORDER BY created_at DESC LIMIT ?";

impl ReportRepo {
    /// Live items counted per status, the largest count first.
    pub fn inventory_by_status_query() -> (r: SqlQuery)
        ensures
            r@.sql == REPORT_INVENTORY_BY_STATUS@,
            r@.params.len() == 0,
    {
        let mut params: Vec<SqlParam> = Vec::new();
        SqlQuery { sql: owned(REPORT_INVENTORY_BY_STATUS), params }
    }

    /// Live items counted per category, the largest count first.
    pub fn inventory_by_category_query() -> (r: SqlQuery)
        ensures
            r@.sql == REPORT_INVENTORY_BY_CATEGORY@,
            r@.params.len() == 0,
    {
        let mut params: Vec<SqlParam> = Vec::new();
        SqlQuery { sql: owned(REPORT_INVENTORY_BY_CATEGORY), params }
    }

    /// The moved quantity per movement type, the largest first.
    pub fn inventory_by_type_query() -> (r: SqlQuery)
        ensures
            r@.sql == REPORT_INVENTORY_BY_TYPE@,
            r@.params.len() == 0,
    {
        let mut params: Vec<SqlParam> = Vec::new();
        SqlQuery { sql: owned(REPORT_INVENTORY_BY_TYPE), params }
    }

    /// Each active location with its capacity, use, free room and use in whole percent, by code.
    pub fn location_occupancy_query() -> (r: SqlQuery)
        ensures
            r@.sql == REPORT_LOCATION_OCCUPANCY@,
            r@.params.len() == 0,
    {
        let mut params: Vec<SqlParam> = Vec::new();
        SqlQuery { sql: owned(REPORT_LOCATION_OCCUPANCY), params }
    }

    /// The `limit` suppliers with the largest purchase totals, with their order counts.
    pub fn top_suppliers_query(limit: i64) -> (r: SqlQuery)
        ensures
            r@.sql == REPORT_TOP_SUPPLIERS@,
            r@.params == seq![SqlValue::Int(limit)],
    {
        let mut params: Vec<SqlParam> = Vec::new();
        params.push(SqlParam::Int(limit));
        proof {
            assert(params_view(params@) =~= seq![SqlValue::Int(limit)]);
        }
        SqlQuery { sql: owned(REPORT_TOP_SUPPLIERS), params }
    }

    /// The `limit` customers with the largest sales totals, with their order counts.
    pub fn top_customers_query(limit: i64) -> (r: SqlQuery)
        ensures
            r@.sql == REPORT_TOP_CUSTOMERS@,
            r@.params == seq![SqlValue::Int(limit)],
    {
        let mut params: Vec<SqlParam> = Vec::new();
        params.push(SqlParam::Int(limit));
        proof {
            assert(params_view(params@) =~= seq![SqlValue::Int(limit)]);
        }
        SqlQuery { sql: owned(REPORT_TOP_CUSTOMERS), params }
    }

    /// Passed and failed inspections per item SKU, the most passes first.
    pub fn quality_pass_fail_by_grade_query() -> (r: SqlQuery)
        ensures
            r@.sql == REPORT_QUALITY_PASS_FAIL_BY_GRADE@,
            r@.params.len() == 0,
    {
        let mut params: Vec<SqlParam> = Vec::new();
        SqlQuery { sql: owned(REPORT_QUALITY_PASS_FAIL_BY_GRADE), params }
    }

    /// Inspections per month (total, passed, failed), the twelve newest months.
    pub fn inspections_by_month_query() -> (r: SqlQuery)
        ensures
            r@.sql == REPORT_INSPECTIONS_BY_MONTH@,
            r@.params.len() == 0,
    {
        let mut params: Vec<SqlParam> = Vec::new();
        SqlQuery { sql: owned(REPORT_INSPECTIONS_BY_MONTH), params }
    }

    /// Counts the active items of the item master.
    pub fn total_stock_query() -> (r: SqlQuery)
        ensures
            r@.sql == REPORT_TOTAL_STOCK@,
            r@.params.len() == 0,
    {
        let mut params: Vec<SqlParam> = Vec::new();
        SqlQuery { sql: owned(REPORT_TOTAL_STOCK), params }
    }

    /// Counts the live inbound records of the last thirty days.
    pub fn inbound_count_30d_query() -> (r: SqlQuery)
        ensures
            r@.sql == REPORT_INBOUND_COUNT_30D@,
            r@.params.len() == 0,
    {
        let mut params: Vec<SqlParam> = Vec::new();
        SqlQuery { sql: owned(REPORT_INBOUND_COUNT_30D), params }
    }

    /// Counts the live outbound records of the last thirty days.
    pub fn outbound_count_30d_query() -> (r: SqlQuery)
        ensures
            r@.sql == REPORT_OUTBOUND_COUNT_30D@,
            r@.params.len() == 0,
    {
        let mut params: Vec<SqlParam> = Vec::new();
        SqlQuery { sql: owned(REPORT_OUTBOUND_COUNT_30D), params }
    }

    /// The `limit` newest open nonconformance reports.
    pub fn recent_quality_failures_query(limit: i64) -> (r: SqlQuery)
        ensures
            r@.sql == REPORT_RECENT_QUALITY_FAILURES@,
            r@.params == seq![SqlValue::Int(limit)],
    {
        let mut params: Vec<SqlParam> = Vec::new();
        params.push(SqlParam::Int(limit));
        proof {
            assert(params_view(params@) =~= seq![SqlValue::Int(limit)]);
        }
        SqlQuery { sql: owned(REPORT_RECENT_QUALITY_FAILURES), params }
    }
}

/// The `limit` newest live inbound records of the last `days` days.
pub const REPORT_RECENT_INBOUND: &'static str = "SELECT ir.inbound_no, ir.inbound_type, ir.approval_status, ir.created_at FROM inbound_records ir WHERE ir.created_at >= datetime('now', ?) AND ir.deleted_at IS NULL ORDER BY ir.created_at DESC LIMIT ?";

/// The `limit` newest live outbound records of the last `days` days.
pub const REPORT_RECENT_OUTBOUND: &'static str = "SELECT orr.outbound_no, orr.outbound_type, orr.approval_status, orr.created_at FROM outbound_records orr WHERE orr.created_at >= datetime('now', ?) AND orr.deleted_at IS NULL ORDER BY orr.created_at DESC LIMIT ?";

/// The twenty newest inbound records waiting for approval.
pub const REPORT_PENDING_INBOUND: &'static str = "SELECT id, inbound_no, 'inbound' as ref_type FROM inbound_records WHERE approval_status = 'pending' AND deleted_at IS NULL ORDER BY created_at DESC LIMIT 20";

/// The twenty newest outbound records waiting for approval.
pub const REPORT_PENDING_OUTBOUND: &'static str = "SELECT id, outbound_no, 'outbound' as ref_type FROM outbound_records WHERE approval_status = 'pending' AND deleted_at IS NULL ORDER BY created_at DESC LIMIT 20";

/// The twenty newest purchase orders waiting for approval.
pub const REPORT_PENDING_PURCHASE: &'static str = "SELECT id, order_no, 'purchase_order' as ref_type FROM purchase_orders WHERE status = 'pending' AND deleted_at IS NULL ORDER BY created_at DESC LIMIT 20";

/// The twenty newest sales orders waiting for approval.
pub const REPORT_PENDING_SALES: &'static str = "SELECT id, order_no, 'sales_order' as ref_type FROM sales_orders WHERE status = 'pending' AND deleted_at IS NULL ORDER BY created_at DESC LIMIT 20";

/// Counts the inbound records waiting for approval.
pub const REPORT_PENDING_INBOUND_COUNT: &'static str = "SELECT COUNT(*) FROM inbound_records WHERE approval_status = 'pending' AND deleted_at IS NULL";

/// Counts the outbound records waiting for approval.
pub const REPORT_PENDING_OUTBOUND_COUNT: &'static str = "SELECT COUNT(*) FROM outbound_records WHERE approval_status = 'pending' AND deleted_at IS NULL";

/// Counts the purchase orders waiting for approval.
pub const REPORT_PENDING_PURCHASE_COUNT: &'static str = "SELECT COUNT(*) FROM purchase_orders WHERE status = 'pending' AND deleted_at IS NULL";

/// Counts the sales orders waiting for approval.
pub const REPORT_PENDING_SALES_COUNT: &'static str = "SELECT COUNT(*) FROM sales_orders WHERE status = 'pending' AND deleted_at IS NULL";

impl ReportRepo {
    /// The `limit` newest live inbound records of the last `days` days.
    pub fn recent_inbound_query(days: i64, limit: i64) -> (r: SqlQuery)
        ensures
            r@.sql == REPORT_RECENT_INBOUND@,
            r@.params == seq![SqlValue::Text(days_back(days as int)), SqlValue::Int(limit)],
    {
        let mut params: Vec<SqlParam> = Vec::new();
        params.push(SqlParam::Text(days_back_text(days)));
        params.push(SqlParam::Int(limit));
        proof {
            assert(params_view(params@) =~= seq![SqlValue::Text(days_back(days as int)), SqlValue::Int(limit)]);
        }
        SqlQuery { sql: owned(REPORT_RECENT_INBOUND), params }
    }

    /// The `limit` newest live outbound records of the last `days` days.
    pub fn recent_outbound_query(days: i64, limit: i64) -> (r: SqlQuery)
        ensures
            r@.sql == REPORT_RECENT_OUTBOUND@,
            r@.params == seq![SqlValue::Text(days_back(days as int)), SqlValue::Int(limit)],
    {
        let mut params: Vec<SqlParam> = Vec::new();
        params.push(SqlParam::Text(days_back_text(days)));
        params.push(SqlParam::Int(limit));
        proof {
            assert(params_view(params@) =~= seq![SqlValue::Text(days_back(days as int)), SqlValue::Int(limit)]);
        }
        SqlQuery { sql: owned(REPORT_RECENT_OUTBOUND), params }
    }

    /// The twenty newest inbound records waiting for approval.
    pub fn pending_inbound_query() -> (r: SqlQuery)
        ensures
            r@.sql == REPORT_PENDING_INBOUND@,
            r@.params.len() == 0,
    {
        let mut params: Vec<SqlParam> = Vec::new();
        SqlQuery { sql: owned(REPORT_PENDING_INBOUND), params }
    }

    /// The twenty newest outbound records waiting for approval.
    pub fn pending_outbound_query() -> (r: SqlQuery)
        ensures
            r@.sql == REPORT_PENDING_OUTBOUND@,
            r@.params.len() == 0,
    {
        let mut params: Vec<SqlParam> = Vec::new();
        SqlQuery { sql: owned(REPORT_PENDING_OUTBOUND), params }
    }

    /// The twenty newest purchase orders waiting for approval.
    pub fn pending_purchase_query() -> (r: SqlQuery)
        ensures
            r@.sql == REPORT_PENDING_PURCHASE@,
            r@.params.len() == 0,
    {
        let mut params: Vec<SqlParam> = Vec::new();
        SqlQuery { sql: owned(REPORT_PENDING_PURCHASE), params }
    }

    /// The twenty newest sales orders waiting for approval.
    pub fn pending_sales_query() -> (r: SqlQuery)
        ensures
            r@.sql == REPORT_PENDING_SALES@,
            r@.params.len() == 0,
    {
        let mut params: Vec<SqlParam> = Vec::new();
        SqlQuery { sql: owned(REPORT_PENDING_SALES), params }
    }

    /// Counts the inbound records waiting for approval.
    pub fn pending_inbound_count_query() -> (r: SqlQuery)
        ensures
            r@.sql == REPORT_PENDING_INBOUND_COUNT@,
            r@.params.len() == 0,
    {
        let mut params: Vec<SqlParam> = Vec::new();
        SqlQuery { sql: owned(REPORT_PENDING_INBOUND_COUNT), params }
    }

    /// Counts the outbound records waiting for approval.
    pub fn pending_outbound_count_query() -> (r: SqlQuery)
        ensures
            r@.sql == REPORT_PENDING_OUTBOUND_COUNT@,
            r@.params.len() == 0,
    {
        let mut params: Vec<SqlParam> = Vec::new();
        SqlQuery { sql: owned(REPORT_PENDING_OUTBOUND_COUNT), params }
    }

    /// Counts the purchase orders waiting for approval.
    pub fn pending_purchase_count_query() -> (r: SqlQuery)
        ensures
            r@.sql == REPORT_PENDING_PURCHASE_COUNT@,
            r@.params.len() == 0,
    {
        let mut params: Vec<SqlParam> = Vec::new();
        SqlQuery { sql: owned(REPORT_PENDING_PURCHASE_COUNT), params }
    }

    /// Counts the sales orders waiting for approval.
    pub fn pending_sales_count_query() -> (r: SqlQuery)
        ensures
            r@.sql == REPORT_PENDING_SALES_COUNT@,
            r@.params.len() == 0,
    {
        let mut params: Vec<SqlParam> = Vec::new();
        SqlQuery { sql: owned(REPORT_PENDING_SALES_COUNT), params }
    }
}

} // verus!
