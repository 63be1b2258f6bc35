//! The monthly sales trend: sales orders grouped by month, newest month first,
//! each group with its order count and its orders' amounts (summed later with
//! `rust_decimal`).
use vstd::prelude::*;
use crate::numbering::{int_text, push_i64};
use crate::query::{params_view, SqlParam, SqlQuery, SqlValue};
use crate::text::{lemma_text_order, owned, push_char, str_eq, text_before, text_less};
use crate::money::{
    amount_text, decimal_text, steps_fit, sum_amount_texts, sum_texts, texts_view, value28, values_sum,
    AmountError, SumOutcome,
};

verus! {

/// A row of the trend query as the grouping reads it: month, count, order id, amount.
pub type TrendRowView = (Seq<char>, i64, i64, Seq<char>);

/// A group of the trend as the contracts see it: month, order count, (order id, amount) pairs.
pub type TrendGroupView = (Seq<char>, i64, Seq<(i64, Seq<char>)>);

pub open spec fn trend_row_view(r: (String, i64, i64, String)) -> TrendRowView {
    (r.0@, r.1, r.2, r.3@)
}

pub open spec fn trend_rows_view(rs: Seq<(String, i64, i64, String)>) -> Seq<TrendRowView> {
    rs.map_values(|r: (String, i64, i64, String)| trend_row_view(r))
}

pub open spec fn pairs_view(ps: Seq<(i64, String)>) -> Seq<(i64, Seq<char>)> {
    ps.map_values(|p: (i64, String)| (p.0, p.1@))
}

pub open spec fn trend_group_view(g: (String, i64, Vec<(i64, String)>)) -> TrendGroupView {
    (g.0@, g.1, pairs_view(g.2@))
}

pub open spec fn trend_groups_view(gs: Seq<(String, i64, Vec<(i64, String)>)>) -> Seq<
    TrendGroupView,
> {
    gs.map_values(|g: (String, i64, Vec<(i64, String)>)| trend_group_view(g))
}

/// How many of the first `n` rows fall in month `m`.
pub open spec fn month_rows(rows: Seq<TrendRowView>, m: Seq<char>, n: int) -> nat
    decreases n,
{
    if n <= 0 {
        0
    } else {
        month_rows(rows, m, n - 1) + (if rows[n - 1].0 == m { 1nat } else { 0nat })
    }
}

/// The summed counts of the first `n` rows of month `m`.
pub open spec fn month_count(rows: Seq<TrendRowView>, m: Seq<char>, n: int) -> int
    decreases n,
{
    if n <= 0 {
        0
    } else {
        month_count(rows, m, n - 1) + (if rows[n - 1].0 == m { rows[n - 1].1 as int } else { 0 })
    }
}

/// The (order id, amount) pairs of the first `n` rows of month `m`, in row order.
pub open spec fn month_items(rows: Seq<TrendRowView>, m: Seq<char>, n: int) -> Seq<
    (i64, Seq<char>),
>
    decreases n,
{
    if n <= 0 {
        Seq::empty()
    } else if rows[n - 1].0 == m {
        month_items(rows, m, n - 1).push((rows[n - 1].2, rows[n - 1].3))
    } else {
        month_items(rows, m, n - 1)
    }
}

/// The running count of every month stays within `i64` (the `+=` of the grouping).
pub open spec fn month_counts_fit(rows: Seq<TrendRowView>) -> bool {
    forall|m: Seq<char>, n: int|
        0 <= n <= rows.len() ==> i64::MIN <= #[trigger] month_count(rows, m, n) <= i64::MAX
}

/// What the grouping gives for the first `n` rows: one group per month that occurs,
/// months strictly descending, each group with its months' summed count and pairs.
pub open spec fn trend_grouped(rows: Seq<TrendRowView>, n: int, gs: Seq<TrendGroupView>) -> bool {
    &&& forall|a: int, b: int|
        0 <= a < b < gs.len() ==> text_before(#[trigger] gs[b].0, #[trigger] gs[a].0)
    &&& forall|j: int| 0 <= j < gs.len() ==> month_rows(rows, #[trigger] gs[j].0, n) > 0
    &&& forall|q: int|
        0 <= q < n ==> exists|j: int| 0 <= j < gs.len() && #[trigger] gs[j].0 == #[trigger] rows[q].0
    &&& forall|j: int|
        0 <= j < gs.len() ==> (#[trigger] gs[j]).1 == month_count(rows, gs[j].0, n) && gs[j].2
            == month_items(rows, gs[j].0, n)
}

proof fn lemma_absent_month(rows: Seq<TrendRowView>, m: Seq<char>, n: int)
    requires
        0 <= n,
        month_rows(rows, m, n) == 0,
    ensures
        month_count(rows, m, n) == 0,
        month_items(rows, m, n) == Seq::<(i64, Seq<char>)>::empty(),
    decreases n,
{
    if n > 0 {
        lemma_absent_month(rows, m, n - 1);
    }
}

proof fn lemma_present_month(rows: Seq<TrendRowView>, q: int, n: int)
    requires
        0 <= q < n,
    ensures
        month_rows(rows, rows[q].0, n) > 0,
    decreases n,
{
    if n - 1 > q {
        lemma_present_month(rows, q, n - 1);
    }
}

proof fn lemma_month_rows_witness(rows: Seq<TrendRowView>, m: Seq<char>, n: int)
    requires
        0 <= n,
        month_rows(rows, m, n) > 0,
    ensures
        exists|q: int| 0 <= q < n && rows[q].0 == m,
    decreases n,
{
    if n > 0 {
        if rows[n - 1].0 == m {
            assert(rows[n - 1].0 == m);
        } else {
            lemma_month_rows_witness(rows, m, n - 1);
        }
    }
}

/// Distinct groups have distinct months.
proof fn lemma_distinct_months(gs: Seq<TrendGroupView>, a: int, b: int)
    requires
        forall|x: int, y: int|
            0 <= x < y < gs.len() ==> text_before(#[trigger] gs[y].0, #[trigger] gs[x].0),
        0 <= a < gs.len(),
        0 <= b < gs.len(),
        a != b,
    ensures
        gs[a].0 != gs[b].0,
{
    lemma_text_order(gs[a].0, gs[b].0, gs[a].0);
    lemma_text_order(gs[b].0, gs[a].0, gs[b].0);
    if a < b {
        assert(text_before(gs[b].0, gs[a].0));
    } else {
        assert(text_before(gs[a].0, gs[b].0));
    }
}

/// Adding row `k` to the existing group `j` of its month.
proof fn lemma_step_update(
    rows: Seq<TrendRowView>,
    k: int,
    gs: Seq<TrendGroupView>,
    j: int,
    ns: Seq<TrendGroupView>,
)
    requires
        0 <= k < rows.len(),
        trend_grouped(rows, k, gs),
        0 <= j < gs.len(),
        gs[j].0 == rows[k].0,
        i64::MIN <= gs[j].1 + rows[k].1 <= i64::MAX,
        ns == gs.update(
            j,
            (gs[j].0, (gs[j].1 + rows[k].1) as i64, gs[j].2.push((rows[k].2, rows[k].3))),
        ),
    ensures
        trend_grouped(rows, k + 1, ns),
{
    let m = rows[k].0;
    assert forall|a: int, b: int| 0 <= a < b < ns.len() implies text_before(
        #[trigger] ns[b].0,
        #[trigger] ns[a].0,
    ) by {
        assert(ns[a].0 == gs[a].0);
        assert(ns[b].0 == gs[b].0);
    }
    assert forall|q: int| 0 <= q < ns.len() implies month_rows(rows, #[trigger] ns[q].0, k + 1) > 0 by {
        assert(ns[q].0 == gs[q].0);
        assert(month_rows(rows, gs[q].0, k) > 0);
    }
    assert forall|q: int| 0 <= q < k + 1 implies exists|x: int|
        0 <= x < ns.len() && #[trigger] ns[x].0 == #[trigger] rows[q].0 by {
        if q == k {
            assert(ns[j].0 == rows[q].0);
        } else {
            let x = choose|x: int| 0 <= x < gs.len() && #[trigger] gs[x].0 == #[trigger] rows[q].0;
            assert(ns[x].0 == rows[q].0);
        }
    }
    assert forall|q: int| 0 <= q < ns.len() implies (#[trigger] ns[q]).1 == month_count(
        rows,
        ns[q].0,
        k + 1,
    ) && ns[q].2 == month_items(rows, ns[q].0, k + 1) by {
        if q != j {
            lemma_distinct_months(gs, q, j);
            assert(ns[q] == gs[q]);
        }
    }
}

/// Adding row `k` as a new group at position `j`, its month being new.
proof fn lemma_step_insert(
    rows: Seq<TrendRowView>,
    k: int,
    gs: Seq<TrendGroupView>,
    j: int,
    ns: Seq<TrendGroupView>,
)
    requires
        0 <= k < rows.len(),
        trend_grouped(rows, k, gs),
        0 <= j <= gs.len(),
        forall|q: int| 0 <= q < j ==> text_before(rows[k].0, #[trigger] gs[q].0),
        j < gs.len() ==> !text_before(rows[k].0, gs[j].0) && gs[j].0 != rows[k].0,
        ns == gs.insert(j, (rows[k].0, rows[k].1, seq![(rows[k].2, rows[k].3)])),
    ensures
        trend_grouped(rows, k + 1, ns),
{
    let m = rows[k].0;
    // every existing group sorts after or before `m`, never equal to it
    assert forall|q: int| j <= q < gs.len() implies text_before(#[trigger] gs[q].0, m) by {
        lemma_text_order(m, gs[j].0, m);
        lemma_text_order(gs[q].0, gs[j].0, m);
        if q > j {
            assert(text_before(gs[q].0, gs[j].0));
        }
    }
    assert forall|q: int| 0 <= q < gs.len() implies #[trigger] gs[q].0 != m by {
        lemma_text_order(m, m, m);
        if q < j {
            assert(text_before(m, gs[q].0));
        } else {
            assert(text_before(gs[q].0, m));
        }
    }
    assert(month_rows(rows, m, k) == 0) by {
        if month_rows(rows, m, k) > 0 {
            lemma_month_rows_witness(rows, m, k);
            let q = choose|q: int| 0 <= q < k && rows[q].0 == m;
            let x = choose|x: int| 0 <= x < gs.len() && #[trigger] gs[x].0 == #[trigger] rows[q].0;
            assert(gs[x].0 == m);
        }
    }
    lemma_absent_month(rows, m, k);
    assert(month_items(rows, m, k + 1) =~= seq![(rows[k].2, rows[k].3)]);
    assert forall|a: int, b: int| 0 <= a < b < ns.len() implies text_before(
        #[trigger] ns[b].0,
        #[trigger] ns[a].0,
    ) by {
        if b < j {
            assert(ns[a] == gs[a] && ns[b] == gs[b]);
        } else if b == j {
            assert(ns[a] == gs[a]);
        } else if a < j {
            assert(ns[a] == gs[a] && ns[b] == gs[b - 1]);
            lemma_text_order(gs[b - 1].0, m, gs[a].0);
        } else if a == j {
            assert(ns[b] == gs[b - 1]);
        } else {
            assert(ns[a] == gs[a - 1] && ns[b] == gs[b - 1]);
        }
    }
    assert forall|q: int| 0 <= q < ns.len() implies month_rows(rows, #[trigger] ns[q].0, k + 1) > 0 by {
        if q < j {
            assert(ns[q] == gs[q]);
        } else if q > j {
            assert(ns[q] == gs[q - 1]);
        }
    }
    assert forall|q: int| 0 <= q < k + 1 implies exists|x: int|
        0 <= x < ns.len() && #[trigger] ns[x].0 == #[trigger] rows[q].0 by {
        if q == k {
            assert(ns[j].0 == rows[q].0);
        } else {
            let x = choose|x: int| 0 <= x < gs.len() && #[trigger] gs[x].0 == #[trigger] rows[q].0;
            if x < j {
                assert(ns[x].0 == rows[q].0);
            } else {
                assert(ns[x + 1].0 == rows[q].0);
            }
        }
    }
    assert forall|q: int| 0 <= q < ns.len() implies (#[trigger] ns[q]).1 == month_count(
        rows,
        ns[q].0,
        k + 1,
    ) && ns[q].2 == month_items(rows, ns[q].0, k + 1) by {
        if q < j {
            assert(ns[q] == gs[q]);
        } else if q > j {
            assert(ns[q] == gs[q - 1]);
        }
    }
}

/// Groups `(month, count, order id, amount)` rows by month: the months in strictly
/// descending order, each with the sum of its rows' counts and its rows' (order id,
/// amount) pairs in row order.
pub fn group_sales_trend(rows: &Vec<(String, i64, i64, String)>) -> (r: Vec<
    (String, i64, Vec<(i64, String)>),
>)
    requires
        month_counts_fit(trend_rows_view(rows@)),
    ensures
        trend_grouped(trend_rows_view(rows@), rows@.len() as int, trend_groups_view(r@)),
{
    let ghost rv = trend_rows_view(rows@);
    let mut groups: Vec<(String, i64, Vec<(i64, String)>)> = Vec::new();
    let mut k: usize = 0;
    while k < rows.len()
        invariant
            k <= rows@.len(),
            rv == trend_rows_view(rows@),
            month_counts_fit(rv),
            trend_grouped(rv, k as int, trend_groups_view(groups@)),
        decreases rows@.len() - k,
    {
        let ghost gv = trend_groups_view(groups@);
        let m = rows[k].0.as_str();
        let cnt = rows[k].1;
        let oid = rows[k].2;
        proof {
            assert(rv[k as int] == trend_row_view(rows@[k as int]));
        }
        let mut j: usize = 0;
        while j < groups.len() && text_less(m, groups[j].0.as_str())
            invariant
                j <= groups@.len(),
                gv == trend_groups_view(groups@),
                k < rv.len(),
                m@ == rv[k as int].0,
                forall|q: int| 0 <= q < j ==> text_before(m@, #[trigger] gv[q].0),
            decreases groups@.len() - j,
        {
            j = j + 1;
        }
        let same = j < groups.len() && str_eq(groups[j].0.as_str(), m);
        let amount = rows[k].3.clone();
        if same {
            proof {
                assert(gv[j as int].0 == m@);
                assert(month_count(rv, m@, k as int + 1) == gv[j as int].1 + cnt);
                assert(i64::MIN <= month_count(rv, m@, k as int + 1) <= i64::MAX);
            }
            let ghost before = groups@;
            let mut g = groups.remove(j);
            let ghost g0 = g;
            g.1 = g.1 + cnt;
            g.2.push((oid, amount));
            proof {
                assert(g0 == before[j as int]);
                assert(pairs_view(g.2@) =~= pairs_view(g0.2@).push((oid, amount@)));
                assert(rv[k as int].3 == amount@);
            }
            groups.insert(j, g);
            proof {
                let ns = gv.update(
                    j as int,
                    (gv[j as int].0, (gv[j as int].1 + rv[k as int].1) as i64, gv[j as int].2.push(
                        (rv[k as int].2, rv[k as int].3),
                    )),
                );
                assert(trend_groups_view(groups@) =~= ns);
                lemma_step_update(rv, k as int, gv, j as int, ns);
            }
        } else {
            let mut items: Vec<(i64, String)> = Vec::new();
            items.push((oid, amount));
            groups.insert(j, (rows[k].0.clone(), cnt, items));
            proof {
                let ns = gv.insert(
                    j as int,
                    (rv[k as int].0, rv[k as int].1, seq![(rv[k as int].2, rv[k as int].3)]),
                );
                assert(pairs_view(items@) =~= seq![(rv[k as int].2, rv[k as int].3)]);
                assert(trend_groups_view(groups@) =~= ns);
                lemma_step_insert(rv, k as int, gv, j as int, ns);
            }
        }
        k = k + 1;
    }
    groups
}

/// One month of the sales trend: the month, its order count and its total amount
/// (the `Decimal` sum of the orders' amounts, as text).
pub struct SalesTrendRow {
    pub month: String,
    pub order_count: i64,
    pub total_amount: String,
}

/// The row of one month group: the month and count as grouped, the total the
/// canonical text of the sum of the amounts in order; the first amount that is not a
/// decimal, or an overflowing sum, is the error.
pub fn trend_row(month: String, order_count: i64, amounts: &Vec<String>) -> (r: Result<
    SalesTrendRow,
    AmountError,
>)
    ensures
        match sum_texts(texts_view(amounts@), amounts@.len() as int) {
            SumOutcome::Total(t) => r matches Ok(row) && row.month@ == month@ && row.order_count
                == order_count && row.total_amount@ == amount_text(t),
            SumOutcome::InvalidText => r matches Err(AmountError::Invalid(_)),
            SumOutcome::Overflow => r matches Err(AmountError::Overflow),
        },
        steps_fit(texts_view(amounts@), amounts@.len() as int) ==> match sum_texts(
            texts_view(amounts@),
            amounts@.len() as int,
        ) {
            SumOutcome::Total(t) => value28(t) == values_sum(texts_view(amounts@), amounts@.len() as int),
            _ => true,
        },
{
    match sum_amount_texts(amounts) {
        Ok(total) => {
            let text = decimal_text(total);
            Ok(SalesTrendRow { month, order_count, total_amount: text })
        },
        Err(e) => Err(e),
    }
}

/// The sales orders of the last months, grouped per order: one row per order with
/// its month, a count of 1 and its amount, newest month first; `group_sales_trend`
/// then groups the rows by month, adding up the counts.
pub const SALES_TREND: &'static str = "SELECT strftime('%Y-%m', so.order_date) AS month,
                COUNT(so.id) AS order_count,
                so.id AS order_id,
                so.total_amount
         FROM sales_orders so
         WHERE so.order_date >= date('now', ?)
           AND so.deleted_at IS NULL
         GROUP BY so.id
         ORDER BY month DESC, so.id";

/// The date modifier `-N months`.
pub open spec fn months_back(months: int) -> Seq<char> {
    seq!['-'] + int_text(months) + " months"@
}

/// The trend statement over the last `months` months.
pub fn sales_trend_query(months: i64) -> (r: SqlQuery)
    ensures
        r@.sql == SALES_TREND@,
        r@.params == seq![SqlValue::Text(months_back(months as int))],
{
    let mut t = String::new();
    push_char(&mut t, '-');
    push_i64(&mut t, months);
    t.append(" months");
    proof {
        assert(t@ =~= months_back(months as int));
    }
    let mut params: Vec<SqlParam> = Vec::new();
    params.push(SqlParam::Text(t));
    proof {
        assert(params_view(params@) =~= seq![SqlValue::Text(months_back(months as int))]);
    }
    SqlQuery { sql: owned(SALES_TREND), params }
}

} // verus!

