//! Sorted, paged lists of the newer repositories: a counting statement and a page
//! statement over the same conditions, the page ordered by an allowlisted column.
use vstd::prelude::*;
use crate::numbering::{int_text, push_digits};
use crate::paging::{order_text, SortOrder};
use crate::query::{
    assemble, conditions_text, copy_params, clauses_view, params_view, well_bound, Conditions,
    ListQuery, SqlParam, SqlQuery, SqlValue,
};
use crate::repo_text::{lemma_asc, lemma_desc, lemma_limit_offset, lemma_order_by, lemma_space};
use crate::repo_text::{LIMIT_OFFSET, ORDER_BY, SPACE};
use crate::sql_text::{lemma_no_suffix, NO_SUFFIX};
use crate::text::{append_joined_strings, count_char, join_with, lemma_count_concat, strings_view};

verus! {

/// ` ORDER BY col dir` followed by `tail`.
pub open spec fn order_suffix(col: Seq<char>, order: SortOrder, tail: Seq<char>) -> Seq<char> {
    ORDER_BY@ + col + SPACE@ + order_text(order) + tail
}

/// Builds ` ORDER BY col dir` followed by `tail`.
pub fn order_suffix_text(col: &str, order: SortOrder, tail: &str) -> (r: String)
    ensures
        r@ == order_suffix(col@, order, tail@),
        count_char(col@, '?') == 0 ==> count_char(r@, '?') == count_char(tail@, '?'),
{
    proof {
        lemma_order_by();
        lemma_space();
        lemma_asc();
        lemma_desc();
        lemma_count_concat(ORDER_BY@, col@, '?');
        lemma_count_concat(ORDER_BY@ + col@, SPACE@, '?');
        lemma_count_concat(ORDER_BY@ + col@ + SPACE@, order_text(order), '?');
        lemma_count_concat(ORDER_BY@ + col@ + SPACE@ + order_text(order), tail@, '?');
    }
    let mut r = String::from_str(ORDER_BY);
    r.append(col);
    r.append(SPACE);
    r.append(order.sql());
    r.append(tail);
    r
}

/// A list whose conditions use plain `?` placeholders: the counting statement is
/// `count_head` and the conditions joined by ` AND `; the page statement is
/// `rows_head`, the same conditions, ` ORDER BY col dir LIMIT ? OFFSET ?`, with the
/// page size and the offset bound after the conditions' values.
pub fn plain_page(
    count_head: &str,
    rows_head: &str,
    for_count: Conditions,
    for_list: Conditions,
    col: &str,
    order: SortOrder,
    page_size: i64,
    offset: i64,
) -> (r: ListQuery)
    requires
        clauses_view(for_count.clauses@) == clauses_view(for_list.clauses@),
        params_view(for_count.params@) == params_view(for_list.params@),
        for_count.wf(),
        count_char(count_head@, '?') == 0,
        count_char(rows_head@, '?') == 0,
        count_char(col@, '?') == 0,
    ensures
        r.count@.sql == count_head@ + conditions_text(clauses_view(for_count.clauses@), ""@),
        r.count@.params == params_view(for_count.params@),
        r.list@.sql == rows_head@ + conditions_text(clauses_view(for_count.clauses@), ""@)
            + order_suffix(col@, order, LIMIT_OFFSET@),
        r.list@.params == params_view(for_count.params@) + seq![
            SqlValue::Int(page_size),
            SqlValue::Int(offset),
        ],
        well_bound(r.count@),
        well_bound(r.list@),
{
    proof {
        lemma_no_suffix();
        lemma_limit_offset();
        reveal_strlit("");
    }
    let suffix = order_suffix_text(col, order, LIMIT_OFFSET);
    let ghost cv = clauses_view(for_count.clauses@);
    let ghost pv = params_view(for_count.params@);
    let count = assemble(count_head, "", for_count, NO_SUFFIX, Vec::new());
    let mut tail: Vec<SqlParam> = Vec::new();
    tail.push(SqlParam::Int(page_size));
    tail.push(SqlParam::Int(offset));
    let list = assemble(rows_head, "", for_list, suffix.as_str(), tail);
    proof {
        assert(NO_SUFFIX@.len() == 0);
        assert(count@.sql =~= count_head@ + conditions_text(cv, ""@));
        assert(count@.params =~= pv);
        assert(params_view(tail@) =~= seq![SqlValue::Int(page_size), SqlValue::Int(offset)]);
    }
    ListQuery { count, list }
}

/// A list whose conditions are already written out: the counting statement is
/// `count_head` and the conditions joined by ` AND ` with `params` bound; the page
/// statement is `rows_head`, the same conditions and ` ORDER BY col dir` followed by
/// `page_tail`, with `params` and then `page_params` bound.
pub fn text_page(
    count_head: &str,
    rows_head: &str,
    conds: &Vec<String>,
    params: &Vec<SqlParam>,
    col: &str,
    order: SortOrder,
    page_tail: &str,
    page_params: &Vec<SqlParam>,
) -> (r: ListQuery)
    ensures
        r.count@.sql == count_head@ + join_with(strings_view(conds@), " AND "@),
        r.count@.params == params_view(params@),
        r.list@.sql == rows_head@ + join_with(strings_view(conds@), " AND "@) + order_suffix(
            col@,
            order,
            page_tail@,
        ),
        r.list@.params == params_view(params@) + params_view(page_params@),
{
    let mut count_sql = String::from_str(count_head);
    append_joined_strings(&mut count_sql, conds, " AND ");
    let mut list_sql = String::from_str(rows_head);
    append_joined_strings(&mut list_sql, conds, " AND ");
    let suffix = order_suffix_text(col, order, page_tail);
    list_sql.append(suffix.as_str());
    let count_params = copy_params(params);
    let mut list_params = copy_params(params);
    let mut more = copy_params(page_params);
    let ghost lp = params_view(list_params@);
    let ghost mp = params_view(more@);
    list_params.append(&mut more);
    proof {
        assert(params_view(list_params@) =~= lp + mp);
    }
    ListQuery {
        count: SqlQuery { sql: count_sql, params: count_params },
        list: SqlQuery { sql: list_sql, params: list_params },
    }
}

/// Adds the condition `prefix` followed by the number of the placeholder it binds,
/// one past the values already bound, and binds `v`.
pub fn push_numbered_value(
    conds: &mut Vec<String>,
    params: &mut Vec<SqlParam>,
    prefix: &str,
    v: SqlParam,
)
    ensures
        strings_view(final(conds)@) == strings_view(old(conds)@).push(
            prefix@ + int_text(old(params)@.len() as int + 1),
        ),
        params_view(final(params)@) == params_view(old(params)@).push(v@),
        final(params)@.len() == old(params)@.len() + 1,
{
    let ghost c0 = strings_view(conds@);
    let ghost p0 = params_view(params@);
    params.push(v);
    let n = params.len();
    let mut c = String::from_str(prefix);
    push_digits(&mut c, n as u64);
    conds.push(c);
    proof {
        assert(strings_view(conds@) =~= c0.push(prefix@ + int_text(n as int)));
        assert(params_view(params@) =~= p0.push(v@));
    }
}

/// ` LIMIT $n OFFSET $m`: the page size and the offset numbered after the `bound`
/// values already bound.
pub open spec fn numbered_page(bound: int) -> Seq<char> {
    " LIMIT $"@ + int_text(bound + 1) + " OFFSET $"@ + int_text(bound + 2)
}

/// The page suffix numbered after `bound` bound values.
pub fn numbered_page_text(bound: usize) -> (r: String)
    requires
        bound + 2 <= u64::MAX,
    ensures
        r@ == numbered_page(bound as int),
{
    let mut r = String::from_str(" LIMIT $");
    push_digits(&mut r, (bound as u64) + 1);
    r.append(" OFFSET $");
    push_digits(&mut r, (bound as u64) + 2);
    proof {
        assert(r@ =~= numbered_page(bound as int));
    }
    r
}

} // verus!
