//! Per-account debit and credit totals of posted journal lines, accumulated in
//! the application with `rust_decimal` (never as SQL `SUM` over text).
use vstd::prelude::*;
use crate::query::SqlQuery;
use crate::query::SqlParam;
use crate::text::owned;
use std::collections::BTreeMap;
use crate::money::{
    add_decimal, aligned_sum, amount_text, amount_wf, checked_sum, decimal_text, max_mantissa,
    parse_decimal, parsed_amount, value28, zero, zero_amount, Amount,
};

verus! {

broadcast use vstd::std_specs::btree::group_btree_axioms;

/// One row of the finance summary: an account with its posted totals as text.
pub struct FinanceSummaryRow {
    pub account_id: i64,
    pub account_code: String,
    pub account_name: String,
    pub account_type: String,
    pub total_debit: String,
    pub total_credit: String,
}

/// A posted line as the summary reads it: account, debit text, credit text.
pub open spec fn line_view(l: (i64, String, String)) -> (i64, Seq<char>, Seq<char>) {
    (l.0, l.1@, l.2@)
}

/// The views of posted lines.
pub open spec fn lines_view(ls: Seq<(i64, String, String)>) -> Seq<(i64, Seq<char>, Seq<char>)> {
    ls.map_values(|l: (i64, String, String)| line_view(l))
}

/// A stored amount, or zero when the text is not a decimal (`unwrap_or(Decimal::ZERO)`).
pub open spec fn amount_or_zero(t: Seq<char>) -> Amount {
    match parsed_amount(t) {
        Some(a) => a,
        None => zero_amount(),
    }
}

/// The debit (`debit == true`) or credit total of account `id` over the first `n`
/// lines, accumulated with `+=` from zero; `None` once an addition overflows.
pub open spec fn account_total(
    lines: Seq<(i64, Seq<char>, Seq<char>)>,
    id: i64,
    n: int,
    debit: bool,
) -> Option<Amount>
    decreases n,
{
    if n <= 0 {
        Some(zero_amount())
    } else {
        let prev = account_total(lines, id, n - 1, debit);
        let l = lines[n - 1];
        if l.0 != id {
            prev
        } else {
            match prev {
                None => None,
                Some(acc) => checked_sum(acc, amount_or_zero(if debit { l.1 } else { l.2 })),
            }
        }
    }
}

/// Every accumulation of the summary succeeds: no account's running total overflows.
pub open spec fn totals_defined(lines: Seq<(i64, Seq<char>, Seq<char>)>) -> bool {
    forall|id: i64|
        #![trigger account_total(lines, id, lines.len() as int, true)]
        account_total(lines, id, lines.len() as int, true) is Some && account_total(
            lines,
            id,
            lines.len() as int,
            false,
        ) is Some
}

/// The exact debit (or credit) sum of account `id` over the first `n` lines: the sum
/// of the values of its lines' amounts, a text that is not a decimal counting as zero.
pub open spec fn account_value(
    lines: Seq<(i64, Seq<char>, Seq<char>)>,
    id: i64,
    n: int,
    debit: bool,
) -> int
    decreases n,
{
    if n <= 0 {
        0
    } else {
        let l = lines[n - 1];
        account_value(lines, id, n - 1, debit) + if l.0 == id {
            value28(amount_or_zero(if debit { l.1 } else { l.2 }))
        } else {
            0
        }
    }
}

/// Every addition of account `id`'s running total over the first `n` lines had its
/// exact result within `Decimal`'s 96 bits at the larger scale of its operands.
pub open spec fn account_fits(
    lines: Seq<(i64, Seq<char>, Seq<char>)>,
    id: i64,
    n: int,
    debit: bool,
) -> bool
    decreases n,
{
    if n <= 0 {
        true
    } else {
        let l = lines[n - 1];
        account_fits(lines, id, n - 1, debit) && (l.0 != id || match account_total(
            lines,
            id,
            n - 1,
            debit,
        ) {
            Some(acc) => -max_mantissa() <= aligned_sum(
                acc,
                amount_or_zero(if debit { l.1 } else { l.2 }),
            ) <= max_mantissa(),
            None => true,
        })
    }
}

/// An overflowed total stays overflowed.
proof fn lemma_total_stays_none(
    lines: Seq<(i64, Seq<char>, Seq<char>)>,
    id: i64,
    k: int,
    n: int,
    debit: bool,
)
    requires
        0 <= k <= n,
        account_total(lines, id, k, debit) is None,
    ensures
        account_total(lines, id, n, debit) is None,
    decreases n - k,
{
    if n > k {
        lemma_total_stays_none(lines, id, k, n - 1, debit);
    }
}

/// `Decimal::from_str(t).unwrap_or(Decimal::ZERO)`.
fn parse_or_zero(t: &str) -> (r: Amount)
    ensures
        r == amount_or_zero(t@),
        amount_wf(r),
{
    match parse_decimal(t) {
        Some(a) => a,
        None => zero(),
    }
}

/// The running (debit, credit) totals of account `id` in `m`: zero for an account
/// with no line yet.
pub open spec fn running(m: Map<i64, (Amount, Amount)>, id: i64) -> (Amount, Amount) {
    if m.contains_key(id) {
        m[id]
    } else {
        (zero_amount(), zero_amount())
    }
}

/// The running totals of `m` are the accumulations over the first `n` lines.
pub open spec fn running_matches(
    m: Map<i64, (Amount, Amount)>,
    lines: Seq<(i64, Seq<char>, Seq<char>)>,
    n: int,
) -> bool {
    forall|id: i64|
        #![trigger running(m, id)]
        {
            let t = running(m, id);
            &&& account_total(lines, id, n, true) == Some(t.0)
            &&& account_total(lines, id, n, false) == Some(t.1)
            &&& amount_wf(t.0)
            &&& amount_wf(t.1)
            &&& account_fits(lines, id, n, true) ==> value28(t.0) == account_value(lines, id, n, true)
            &&& account_fits(lines, id, n, false) ==> value28(t.1) == account_value(lines, id, n, false)
        }
}

/// Account ids are `i64`, whose order obeys the laws `BTreeMap` relies on.
proof fn lemma_account_ids_ordered()
    ensures
        vstd::laws_cmp::obeys_cmp::<i64>(),
{
    broadcast use vstd::laws_cmp::group_laws_cmp;
}

/// The running totals of account `id`.
fn running_of(totals: &BTreeMap<i64, (Amount, Amount)>, id: i64) -> (r: (Amount, Amount))
    ensures
        r == running(totals@, id),
{
    proof {
        lemma_account_ids_ordered();
    }
    match totals.get(&id) {
        Some(p) => *p,
        None => (zero(), zero()),
    }
}

/// The finance summary: for each account (in the given order), the totals of
/// debit and credit over the posted lines of that account, in line order, as
/// canonical decimal text; a line amount that is not a decimal counts as zero.
/// `None` exactly when some account's running total overflows (where the
/// accumulation with `+=` panics).  Where every addition of an account's total kept
/// its exact result within `Decimal`'s 96 bits, the total is the exact sum of the
/// account's line values.
pub fn finance_summary(
    accounts: &Vec<(i64, String, String, String)>,
    lines: &Vec<(i64, String, String)>,
) -> (r: Option<Vec<FinanceSummaryRow>>)
    ensures
        r is Some <==> totals_defined(lines_view(lines@)),
        r matches Some(rows) ==> rows@.len() == accounts@.len() && forall|i: int|
            0 <= i < accounts@.len() ==> {
                let a = #[trigger] accounts@[i];
                let row = rows@[i];
                let lv = lines_view(lines@);
                &&& row.account_id == a.0
                &&& row.account_code@ == a.1@
                &&& row.account_name@ == a.2@
                &&& row.account_type@ == a.3@
                &&& row.total_debit@ == amount_text(
                    account_total(lv, a.0, lv.len() as int, true)->0,
                )
                &&& row.total_credit@ == amount_text(
                    account_total(lv, a.0, lv.len() as int, false)->0,
                )
                &&& account_fits(lv, a.0, lv.len() as int, true) ==> value28(
                    account_total(lv, a.0, lv.len() as int, true)->0,
                ) == account_value(lv, a.0, lv.len() as int, true)
                &&& account_fits(lv, a.0, lv.len() as int, false) ==> value28(
                    account_total(lv, a.0, lv.len() as int, false)->0,
                ) == account_value(lv, a.0, lv.len() as int, false)
            },
{
    let ghost lv = lines_view(lines@);
    let mut totals: BTreeMap<i64, (Amount, Amount)> = BTreeMap::new();
    let mut k: usize = 0;
    proof {
        lemma_account_ids_ordered();
        assert forall|id: i64| #![trigger running(totals@, id)] {
            let t = running(totals@, id);
            &&& account_total(lv, id, 0, true) == Some(t.0)
            &&& account_total(lv, id, 0, false) == Some(t.1)
            &&& amount_wf(t.0)
            &&& amount_wf(t.1)
            &&& account_fits(lv, id, 0, true) ==> value28(t.0) == account_value(lv, id, 0, true)
            &&& account_fits(lv, id, 0, false) ==> value28(t.1) == account_value(lv, id, 0, false)
        } by {
            assert(!totals@.contains_key(id));
        }
    }
    while k < lines.len()
        invariant
            k <= lines@.len(),
            lv == lines_view(lines@),
            running_matches(totals@, lv, k as int),
        decreases lines@.len() - k,
    {
        let id = lines[k].0;
        let d = parse_or_zero(lines[k].1.as_str());
        let c = parse_or_zero(lines[k].2.as_str());
        proof {
            assert(lv[k as int] == line_view(lines@[k as int]));
        }
        let (cur_d, cur_c) = running_of(&totals, id);
        proof {
            assert(running(totals@, id) == (cur_d, cur_c));
        }
        let nd = add_decimal(cur_d, d);
        let nc = add_decimal(cur_c, c);
        if nd.is_none() || nc.is_none() {
            proof {
                if nd.is_none() {
                    assert(account_total(lv, id, k as int + 1, true) is None);
                    lemma_total_stays_none(lv, id, k as int + 1, lv.len() as int, true);
                    assert(account_total(lv, id, lv.len() as int, true) is None);
                } else {
                    assert(account_total(lv, id, k as int + 1, false) is None);
                    lemma_total_stays_none(lv, id, k as int + 1, lv.len() as int, false);
                    assert(account_total(lv, id, lv.len() as int, false) is None);
                }
                assert(!totals_defined(lv));
            }
            return None;
        }
        let ghost old_totals = totals@;
        let nd = nd.unwrap();
        let nc = nc.unwrap();
        proof {
            lemma_account_ids_ordered();
        }
        totals.insert(id, (nd, nc));
        proof {
            assert(lv[k as int].0 == id);
            assert forall|x: i64| #![trigger running(totals@, x)] {
                let t = running(totals@, x);
                &&& account_total(lv, x, k as int + 1, true) == Some(t.0)
                &&& account_total(lv, x, k as int + 1, false) == Some(t.1)
                &&& amount_wf(t.0)
                &&& amount_wf(t.1)
                &&& account_fits(lv, x, k as int + 1, true) ==> value28(t.0) == account_value(lv, x, k as int + 1, true)
                &&& account_fits(lv, x, k as int + 1, false) ==> value28(t.1) == account_value(lv, x, k as int + 1, false)
            } by {
                let before = running(old_totals, x);
                if x != id {
                    assert(running(totals@, x) == before);
                } else {
                    assert(running(totals@, x) == (nd, nc));
                    if account_fits(lv, id, k as int + 1, true) {
                        assert(account_fits(lv, id, k as int, true));
                    }
                    if account_fits(lv, id, k as int + 1, false) {
                        assert(account_fits(lv, id, k as int, false));
                    }
                }
            }
        }
        k = k + 1;
    }
    proof {
        assert(lv.len() == lines@.len());
        assert forall|id: i64|
            #![trigger account_total(lv, id, lv.len() as int, true)]
            account_total(lv, id, lv.len() as int, true) is Some && account_total(
                lv,
                id,
                lv.len() as int,
                false,
            ) is Some by {
            assert(account_total(lv, id, lv.len() as int, true) == Some(running(totals@, id).0));
        }
    }
    let mut rows: Vec<FinanceSummaryRow> = Vec::new();
    let mut i: usize = 0;
    while i < accounts.len()
        invariant
            i <= accounts@.len(),
            rows@.len() == i,
            lv == lines_view(lines@),
            lv.len() == lines@.len(),
            running_matches(totals@, lv, lv.len() as int),
            forall|q: int|
                0 <= q < i ==> {
                    let a = #[trigger] accounts@[q];
                    let row = rows@[q];
                    &&& row.account_id == a.0
                    &&& row.account_code@ == a.1@
                    &&& row.account_name@ == a.2@
                    &&& row.account_type@ == a.3@
                    &&& row.total_debit@ == amount_text(
                        account_total(lv, a.0, lv.len() as int, true)->0,
                    )
                    &&& row.total_credit@ == amount_text(
                        account_total(lv, a.0, lv.len() as int, false)->0,
                    )
                    &&& account_fits(lv, a.0, lv.len() as int, true) ==> value28(
                        account_total(lv, a.0, lv.len() as int, true)->0,
                    ) == account_value(lv, a.0, lv.len() as int, true)
                    &&& account_fits(lv, a.0, lv.len() as int, false) ==> value28(
                        account_total(lv, a.0, lv.len() as int, false)->0,
                    ) == account_value(lv, a.0, lv.len() as int, false)
                },
        decreases accounts@.len() - i,
    {
        let id = accounts[i].0;
        let (d, c) = running_of(&totals, id);
        proof {
            assert(account_total(lv, id, lv.len() as int, true) == Some(running(totals@, id).0));
        }
        let row = FinanceSummaryRow {
            account_id: id,
            account_code: accounts[i].1.clone(),
            account_name: accounts[i].2.clone(),
            account_type: accounts[i].3.clone(),
            total_debit: decimal_text(d),
            total_credit: decimal_text(c),
        };
        rows.push(row);
        i = i + 1;
    }
    Some(rows)
}

/// Every account, by code, as the finance summary lists them.
pub const SUMMARY_ACCOUNTS: &'static str = "SELECT id, code, name, account_type FROM accounts ORDER BY code";

/// The account, debit and credit of every posted journal line.
pub const SUMMARY_LINES: &'static str = "SELECT jel.account_id, jel.debit, jel.credit\n         FROM journal_entry_lines jel\n         JOIN journal_entries je ON je.id = jel.entry_id\n         WHERE je.status = 'posted'";

/// The accounts the finance summary reports on, by code.
pub fn summary_accounts_query() -> (r: SqlQuery)
    ensures
        r@.sql == SUMMARY_ACCOUNTS@,
        r@.params.len() == 0,
{
    let mut params: Vec<SqlParam> = Vec::new();
    SqlQuery { sql: owned(SUMMARY_ACCOUNTS), params }
}

/// The posted lines the finance summary accumulates.
pub fn summary_lines_query() -> (r: SqlQuery)
    ensures
        r@.sql == SUMMARY_LINES@,
        r@.params.len() == 0,
{
    let mut params: Vec<SqlParam> = Vec::new();
    SqlQuery { sql: owned(SUMMARY_LINES), params }
}

} // verus!
