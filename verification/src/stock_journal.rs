//! The stock journal of the inventory store: inbound, outbound and check records,
//! listed newest first under optional filters with numbered placeholders.
use vstd::prelude::*;
use crate::listing::push_numbered_value;
use crate::numbering::{int_text, push_i64};
use crate::pipes::store_offset;
use crate::query::{copy_params, params_view, ListQuery, SqlParam, SqlQuery, SqlValue};
use crate::text::{append_joined_strings, join_with, owned, strings_view};

verus! {

/// Inventory checks of the stock journal.
pub struct InventoryCheckRepo;

/// Counts inbound records; the conditions follow.
pub const INBOUND_JOURNAL_COUNT: &'static str = "SELECT COUNT(*) FROM inbound_records ";

/// Selects inbound records; the conditions follow.
pub const INBOUND_JOURNAL_ROWS: &'static str = "SELECT id, inbound_no, inbound_type, supplier_id, order_id, operator_id, total_items, notes, created_at FROM inbound_records ";

/// Counts outbound records; the conditions follow.
pub const OUTBOUND_JOURNAL_COUNT: &'static str = "SELECT COUNT(*) FROM outbound_records ";

/// Selects outbound records; the conditions follow.
pub const OUTBOUND_JOURNAL_ROWS: &'static str = "SELECT id, outbound_no, outbound_type, customer_id, order_id, operator_id, total_items, notes, created_at FROM outbound_records ";

/// Counts inventory checks; the conditions follow.
pub const CHECK_JOURNAL_COUNT: &'static str = "SELECT COUNT(*) FROM inventory_checks ";

/// Selects inventory checks; the conditions follow.
pub const CHECK_JOURNAL_ROWS: &'static str = "SELECT id, check_no, check_type, operator_id, total_expected, total_confirmed, total_missing, notes, status, created_at, updated_at FROM inventory_checks ";

/// Newest first, then the page size placeholder up to its number.
pub const JOURNAL_ORDER: &'static str = " ORDER BY created_at DESC LIMIT ?";

/// The offset placeholder up to its number.
pub const JOURNAL_OFFSET: &'static str = " OFFSET ?";

/// How many of the values are given.
pub open spec fn given_count(vals: Seq<Option<&str>>) -> nat
    decreases vals.len(),
{
    if vals.len() == 0 {
        0
    } else {
        given_count(vals.drop_last()) + if vals.last() is Some {
            1nat
        } else {
            0nat
        }
    }
}

/// The conditions for the given values: `prefix` and the number of the value
/// among the given ones, for each given value in order.
pub open spec fn numbered_conds(prefixes: Seq<Seq<char>>, vals: Seq<Option<&str>>) -> Seq<Seq<char>>
    decreases vals.len(),
{
    if vals.len() == 0 || prefixes.len() == 0 {
        Seq::empty()
    } else {
        numbered_conds(prefixes.drop_last(), vals.drop_last()) + if vals.last() is Some {
            seq![prefixes.last() + int_text(given_count(vals.drop_last()) as int + 1)]
        } else {
            Seq::<Seq<char>>::empty()
        }
    }
}

/// The given values as bound texts, in order.
pub open spec fn given_values(vals: Seq<Option<&str>>) -> Seq<SqlValue>
    decreases vals.len(),
{
    if vals.len() == 0 {
        Seq::empty()
    } else {
        given_values(vals.drop_last()) + match vals.last() {
            Some(t) => seq![SqlValue::Text(t@)],
            None => Seq::<SqlValue>::empty(),
        }
    }
}

/// Nothing when there is no condition, else `WHERE` and the conditions joined by
/// ` AND `.
pub open spec fn where_clause(conds: Seq<Seq<char>>) -> Seq<char> {
    if conds.len() == 0 {
        Seq::empty()
    } else {
        "WHERE "@ + join_with(conds, " AND "@)
    }
}

proof fn lemma_given_count_bound(vals: Seq<Option<&str>>)
    ensures
        given_count(vals) <= vals.len(),
        given_values(vals).len() == given_count(vals),
    decreases vals.len(),
{
    if vals.len() > 0 {
        lemma_given_count_bound(vals.drop_last());
    }
}

/// The counting and page statements of a journal: `count_head` or `rows_head`, the
/// `WHERE` of the given filters, and for the page `ORDER BY created_at DESC` with
/// the page size and the offset numbered after the filter values.
fn journal_page(
    count_head: &str,
    rows_head: &str,
    prefixes: &Vec<&'static str>,
    vals: &Vec<Option<&str>>,
    page: i64,
    page_size: i64,
) -> (r: ListQuery)
    requires
        prefixes@.len() == vals@.len(),
        vals@.len() < 100,
        page > i64::MIN,
        i64::MIN <= store_offset(page, page_size) <= i64::MAX,
    ensures
        ({
            let pv = prefixes@.map_values(|p: &'static str| p@);
            let conds = numbered_conds(pv, vals@);
            let n = given_count(vals@) as int;
            &&& r.count@.sql == count_head@ + where_clause(conds)
            &&& r.count@.params == given_values(vals@)
            &&& r.list@.sql == rows_head@ + where_clause(conds) + JOURNAL_ORDER@ + int_text(n + 1)
                + JOURNAL_OFFSET@ + int_text(n + 2)
            &&& r.list@.params == given_values(vals@) + seq![
                SqlValue::Int(page_size),
                SqlValue::Int(store_offset(page, page_size) as i64),
            ]
        }),
{
    let ghost pv = prefixes@.map_values(|p: &'static str| p@);
    let mut conds: Vec<String> = Vec::new();
    let mut params: Vec<SqlParam> = Vec::new();
    let mut i: usize = 0;
    while i < vals.len()
        invariant
            prefixes@.len() == vals@.len(),
            vals@.len() < 100,
            i <= vals@.len(),
            pv == prefixes@.map_values(|p: &'static str| p@),
            strings_view(conds@) == numbered_conds(pv.take(i as int), vals@.take(i as int)),
            params_view(params@) == given_values(vals@.take(i as int)),
            params@.len() == given_count(vals@.take(i as int)),
        decreases vals.len() - i,
    {
        proof {
            assert(pv.take(i as int + 1).drop_last() =~= pv.take(i as int));
            assert(vals@.take(i as int + 1).drop_last() =~= vals@.take(i as int));
            lemma_given_count_bound(vals@.take(i as int));
        }
        let ghost c0 = strings_view(conds@);
        let ghost p0 = params_view(params@);
        match vals[i] {
            Some(t) => {
                push_numbered_value(&mut conds, &mut params, prefixes[i], SqlParam::Text(owned(t)));
                proof {
                    assert(prefixes@[i as int]@ == pv[i as int]);
                }
            },
            None => {},
        }
        proof {
            assert(strings_view(conds@) =~= numbered_conds(pv.take(i as int + 1), vals@.take(i as int + 1)));
            assert(params_view(params@) =~= given_values(vals@.take(i as int + 1)));
        }
        i = i + 1;
    }
    proof {
        assert(pv.take(vals@.len() as int) =~= pv);
        assert(vals@.take(vals@.len() as int) =~= vals@);
    }
    let mut w = String::new();
    if conds.len() > 0 {
        w.append("WHERE ");
        append_joined_strings(&mut w, &conds, " AND ");
    }
    proof {
        assert(w@ =~= where_clause(numbered_conds(pv, vals@)));
    }
    proof {
        lemma_given_count_bound(vals@);
    }
    let n = params.len();
    let mut count_sql = owned(count_head);
    count_sql.append(w.as_str());
    let mut list_sql = owned(rows_head);
    list_sql.append(w.as_str());
    list_sql.append(JOURNAL_ORDER);
    push_i64(&mut list_sql, (n + 1) as i64);
    list_sql.append(JOURNAL_OFFSET);
    push_i64(&mut list_sql, (n + 2) as i64);
    let offset = (page - 1) * page_size;
    let count_params = copy_params(&params);
    let ghost gv = params_view(params@);
    params.push(SqlParam::Int(page_size));
    params.push(SqlParam::Int(offset));
    proof {
        assert(params_view(params@) =~= gv + seq![
            SqlValue::Int(page_size),
            SqlValue::Int(store_offset(page, page_size) as i64),
        ]);
    }
    ListQuery {
        count: SqlQuery { sql: count_sql, params: count_params },
        list: SqlQuery { sql: list_sql, params },
    }
}

/// One page of the inbound journal: by inbound type, creation period and
/// supplier, each only when given.
pub fn inbound_journal_query(
    page: i64,
    page_size: i64,
    inbound_type: Option<&str>,
    start_date: Option<&str>,
    end_date: Option<&str>,
    supplier_id: Option<&str>,
) -> (r: ListQuery)
    requires
        page > i64::MIN,
        i64::MIN <= store_offset(page, page_size) <= i64::MAX,
    ensures
        ({
            let vals = seq![inbound_type, start_date, end_date, supplier_id];
            let conds = numbered_conds(
                seq!["inbound_type = ?"@, "created_at >= ?"@, "created_at <= ?"@, "supplier_id = ?"@],
                vals,
            );
            let n = given_count(vals) as int;
            &&& r.count@.sql == INBOUND_JOURNAL_COUNT@ + where_clause(conds)
            &&& r.count@.params == given_values(vals)
            &&& r.list@.sql == INBOUND_JOURNAL_ROWS@ + where_clause(conds) + JOURNAL_ORDER@ + int_text(n + 1)
                + JOURNAL_OFFSET@ + int_text(n + 2)
            &&& r.list@.params == given_values(vals) + seq![
                SqlValue::Int(page_size),
                SqlValue::Int(store_offset(page, page_size) as i64),
            ]
        }),
{
    let prefixes: Vec<&'static str> = vec!["inbound_type = ?", "created_at >= ?", "created_at <= ?", "supplier_id = ?"];
    let vals: Vec<Option<&str>> = vec![inbound_type, start_date, end_date, supplier_id];
    proof {
        assert(prefixes@.map_values(|p: &'static str| p@) =~= seq![
            "inbound_type = ?"@,
            "created_at >= ?"@,
            "created_at <= ?"@,
            "supplier_id = ?"@,
        ]);
        assert(vals@ =~= seq![inbound_type, start_date, end_date, supplier_id]);
    }
    journal_page(INBOUND_JOURNAL_COUNT, INBOUND_JOURNAL_ROWS, &prefixes, &vals, page, page_size)
}

/// One page of the outbound journal: by outbound type, creation period and
/// customer, each only when given.
pub fn outbound_journal_query(
    page: i64,
    page_size: i64,
    outbound_type: Option<&str>,
    start_date: Option<&str>,
    end_date: Option<&str>,
    customer_id: Option<&str>,
) -> (r: ListQuery)
    requires
        page > i64::MIN,
        i64::MIN <= store_offset(page, page_size) <= i64::MAX,
    ensures
        ({
            let vals = seq![outbound_type, start_date, end_date, customer_id];
            let conds = numbered_conds(
                seq!["outbound_type = ?"@, "created_at >= ?"@, "created_at <= ?"@, "customer_id = ?"@],
                vals,
            );
            let n = given_count(vals) as int;
            &&& r.count@.sql == OUTBOUND_JOURNAL_COUNT@ + where_clause(conds)
            &&& r.count@.params == given_values(vals)
            &&& r.list@.sql == OUTBOUND_JOURNAL_ROWS@ + where_clause(conds) + JOURNAL_ORDER@ + int_text(n + 1)
                + JOURNAL_OFFSET@ + int_text(n + 2)
            &&& r.list@.params == given_values(vals) + seq![
                SqlValue::Int(page_size),
                SqlValue::Int(store_offset(page, page_size) as i64),
            ]
        }),
{
    let prefixes: Vec<&'static str> = vec!["outbound_type = ?", "created_at >= ?", "created_at <= ?", "customer_id = ?"];
    let vals: Vec<Option<&str>> = vec![outbound_type, start_date, end_date, customer_id];
    proof {
        assert(prefixes@.map_values(|p: &'static str| p@) =~= seq![
            "outbound_type = ?"@,
            "created_at >= ?"@,
            "created_at <= ?"@,
            "customer_id = ?"@,
        ]);
        assert(vals@ =~= seq![outbound_type, start_date, end_date, customer_id]);
    }
    journal_page(OUTBOUND_JOURNAL_COUNT, OUTBOUND_JOURNAL_ROWS, &prefixes, &vals, page, page_size)
}

impl InventoryCheckRepo {
    /// One page of the inventory checks: by status and creation period, each only
    /// when given.
    pub fn list_query(
        page: i64,
        page_size: i64,
        status: Option<&str>,
        start_date: Option<&str>,
        end_date: Option<&str>,
    ) -> (r: ListQuery)
        requires
            page > i64::MIN,
            i64::MIN <= store_offset(page, page_size) <= i64::MAX,
        ensures
            ({
                let vals = seq![status, start_date, end_date];
                let conds = numbered_conds(
                    seq!["status = ?"@, "created_at >= ?"@, "created_at <= ?"@],
                    vals,
                );
                let n = given_count(vals) as int;
                &&& r.count@.sql == CHECK_JOURNAL_COUNT@ + where_clause(conds)
                &&& r.count@.params == given_values(vals)
                &&& r.list@.sql == CHECK_JOURNAL_ROWS@ + where_clause(conds) + JOURNAL_ORDER@
                    + int_text(n + 1) + JOURNAL_OFFSET@ + int_text(n + 2)
                &&& r.list@.params == given_values(vals) + seq![
                    SqlValue::Int(page_size),
                    SqlValue::Int(store_offset(page, page_size) as i64),
                ]
            }),
    {
        let prefixes: Vec<&'static str> = vec!["status = ?", "created_at >= ?", "created_at <= ?"];
        let vals: Vec<Option<&str>> = vec![status, start_date, end_date];
        proof {
            assert(prefixes@.map_values(|p: &'static str| p@) =~= seq![
                "status = ?"@,
                "created_at >= ?"@,
                "created_at <= ?"@,
            ]);
            assert(vals@ =~= seq![status, start_date, end_date]);
        }
        journal_page(CHECK_JOURNAL_COUNT, CHECK_JOURNAL_ROWS, &prefixes, &vals, page, page_size)
    }
}

} // verus!
