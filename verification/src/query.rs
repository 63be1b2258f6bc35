//! SQL text with positional `?` placeholders and the parameters bound to them.
//!
//! Every list query of the repositories is a fixed base text, an optional run of
//! filter conditions joined by ` AND `, and a fixed suffix.  The builders here
//! produce that text together with the parameters in placeholder order, and prove
//! that the number of `?` in the text equals the number of parameters.
use vstd::prelude::*;
use crate::text::{append_joined, like_contains, count_char, count_upto, join_with, lemma_count_concat, lemma_count_join, sum_counts};

verus! {

/// A value bound to one placeholder, as the contracts see it.
pub enum SqlValue {
    Int(i64),
    Text(Seq<char>),
    Null,
}

/// A value bound to one placeholder.
pub enum SqlParam {
    Int(i64),
    Text(String),
    Null,
}

impl View for SqlParam {
    type V = SqlValue;

    open spec fn view(&self) -> SqlValue {
        match self {
            SqlParam::Int(v) => SqlValue::Int(*v),
            SqlParam::Text(s) => SqlValue::Text(s@),
            SqlParam::Null => SqlValue::Null,
        }
    }
}

impl SqlParam {
    /// A copy of the parameter.
    pub fn duplicate(&self) -> (r: SqlParam)
        ensures
            r@ == self@,
    {
        match self {
            SqlParam::Int(v) => SqlParam::Int(*v),
            SqlParam::Text(t) => SqlParam::Text(t.clone()),
            SqlParam::Null => SqlParam::Null,
        }
    }
}

/// The views of a list of parameters.
pub open spec fn params_view(ps: Seq<SqlParam>) -> Seq<SqlValue> {
    ps.map_values(|p: SqlParam| p@)
}

/// A copy of a list of parameters.
pub fn copy_params(ps: &Vec<SqlParam>) -> (r: Vec<SqlParam>)
    ensures
        params_view(r@) == params_view(ps@),
{
    let mut r: Vec<SqlParam> = Vec::new();
    let mut i: usize = 0;
    while i < ps.len()
        invariant
            i <= ps.len(),
            r@.len() == i,
            params_view(r@) == params_view(ps@.take(i as int)),
        decreases ps.len() - i,
    {
        let ghost before = r@;
        let d = ps[i].duplicate();
        r.push(d);
        proof {
            assert(r@ =~= before.push(d));
            assert(ps@.take(i as int + 1) =~= ps@.take(i as int).push(ps@[i as int]));
            assert(params_view(r@) =~= params_view(before).push(d@));
            assert(params_view(ps@.take(i as int + 1)) =~= params_view(ps@.take(i as int)).push(
                ps@[i as int]@,
            ));
        }
        i = i + 1;
    }
    proof {
        assert(ps@.take(ps.len() as int) =~= ps@);
    }
    r
}

/// The views of a list of clause texts.
pub open spec fn clauses_view(cs: Seq<&'static str>) -> Seq<Seq<char>> {
    cs.map_values(|c: &'static str| c@)
}

/// One statement: its text and the parameters for its placeholders, in order.
pub struct SqlQuery {
    pub sql: String,
    pub params: Vec<SqlParam>,
}

/// What a statement is, for the contracts.
pub struct SqlQueryView {
    pub sql: Seq<char>,
    pub params: Seq<SqlValue>,
}

impl View for SqlQuery {
    type V = SqlQueryView;

    open spec fn view(&self) -> SqlQueryView {
        SqlQueryView { sql: self.sql@, params: params_view(self.params@) }
    }
}

/// Every placeholder of the text has exactly one parameter, and no parameter is left over.
pub open spec fn well_bound(q: SqlQueryView) -> bool {
    count_char(q.sql, '?') == q.params.len()
}

/// The counting query and the page query of a paginated list.
pub struct ListQuery {
    pub count: SqlQuery,
    pub list: SqlQuery,
}

/// The text that a run of conditions adds after the base text: nothing when
/// there is no condition, else `connector` and the conditions joined by ` AND `.
pub open spec fn conditions_text(clauses: Seq<Seq<char>>, connector: Seq<char>) -> Seq<char> {
    if clauses.len() == 0 {
        Seq::empty()
    } else {
        connector + join_with(clauses, " AND "@)
    }
}

/// Filter conditions collected so far, each clause with the parameters of its placeholders.
pub struct Conditions {
    pub clauses: Vec<&'static str>,
    pub params: Vec<SqlParam>,
}

impl Conditions {
    /// The clauses hold as many placeholders as there are parameters.
    pub open spec fn wf(&self) -> bool {
        sum_counts(clauses_view(self.clauses@), '?') == self.params@.len()
    }

    pub fn new() -> (r: Conditions)
        ensures
            r.clauses@.len() == 0,
            r.params@.len() == 0,
            r.wf(),
    {
        Conditions { clauses: Vec::new(), params: Vec::new() }
    }

    /// Adds a clause without parameters.
    pub fn push_plain(&mut self, clause: &'static str)
        requires
            old(self).wf(),
            count_char(clause@, '?') == 0,
        ensures
            final(self).clauses@ == old(self).clauses@.push(clause),
            final(self).params@ == old(self).params@,
            final(self).wf(),
    {
        let ghost before = clauses_view(self.clauses@);
        self.clauses.push(clause);
        proof {
            assert(clauses_view(self.clauses@).drop_last() =~= before);
        }
    }

    /// Adds a clause with one placeholder and its parameter.
    pub fn push1(&mut self, clause: &'static str, p: SqlParam)
        requires
            old(self).wf(),
            count_char(clause@, '?') == 1,
        ensures
            final(self).clauses@ == old(self).clauses@.push(clause),
            final(self).params@ == old(self).params@.push(p),
            final(self).wf(),
    {
        let ghost before = clauses_view(self.clauses@);
        self.clauses.push(clause);
        self.params.push(p);
        proof {
            assert(clauses_view(self.clauses@).drop_last() =~= before);
        }
    }

    /// Adds a clause with two placeholders and their parameters.
    pub fn push2(&mut self, clause: &'static str, p1: SqlParam, p2: SqlParam)
        requires
            old(self).wf(),
            count_char(clause@, '?') == 2,
        ensures
            final(self).clauses@ == old(self).clauses@.push(clause),
            final(self).params@ == old(self).params@.push(p1).push(p2),
            final(self).wf(),
    {
        let ghost before = clauses_view(self.clauses@);
        self.clauses.push(clause);
        self.params.push(p1);
        self.params.push(p2);
        proof {
            assert(clauses_view(self.clauses@).drop_last() =~= before);
        }
    }
}

impl Conditions {
    /// Adds a clause with three placeholders and their parameters.
    pub fn push3(&mut self, clause: &'static str, p1: SqlParam, p2: SqlParam, p3: SqlParam)
        requires
            old(self).wf(),
            count_char(clause@, '?') == 3,
        ensures
            final(self).clauses@ == old(self).clauses@.push(clause),
            final(self).params@ == old(self).params@.push(p1).push(p2).push(p3),
            final(self).wf(),
    {
        let ghost before = clauses_view(self.clauses@);
        self.clauses.push(clause);
        self.params.push(p1);
        self.params.push(p2);
        self.params.push(p3);
        proof {
            assert(clauses_view(self.clauses@).drop_last() =~= before);
        }
    }
}

/// The clause `c` when `b` holds, else nothing.
pub open spec fn clause_if(b: bool, c: Seq<char>) -> Seq<Seq<char>> {
    if b {
        seq![c]
    } else {
        Seq::empty()
    }
}

/// The text parameter of an optional filter value.
pub open spec fn text_param(v: Option<&str>) -> Seq<SqlValue> {
    match v {
        Some(t) => seq![SqlValue::Text(t@)],
        None => Seq::empty(),
    }
}

/// The text parameter of an optional owned filter value.
pub open spec fn string_param(v: Option<String>) -> Seq<SqlValue> {
    match v {
        Some(t) => seq![SqlValue::Text(t@)],
        None => Seq::empty(),
    }
}

/// The `%value%` parameter of an optional LIKE filter.
pub open spec fn like_param(v: Option<&str>) -> Seq<SqlValue> {
    match v {
        Some(t) => seq![SqlValue::Text(seq!['%'] + t@ + seq!['%'])],
        None => Seq::empty(),
    }
}

/// The `%value%` parameter of an optional owned LIKE filter.
pub open spec fn like_string_param(v: Option<String>) -> Seq<SqlValue> {
    match v {
        Some(t) => seq![SqlValue::Text(seq!['%'] + t@ + seq!['%'])],
        None => Seq::empty(),
    }
}

/// An optional text bound as itself, or as NULL when absent.
pub open spec fn nullable_text(v: Option<&str>) -> SqlValue {
    match v {
        Some(t) => SqlValue::Text(t@),
        None => SqlValue::Null,
    }
}

/// Binds an optional text: the text, or NULL.
pub fn nullable_param(v: Option<&str>) -> (r: SqlParam)
    ensures
        r@ == nullable_text(v),
{
    match v {
        Some(t) => SqlParam::Text(String::from_str(t)),
        None => SqlParam::Null,
    }
}

/// An optional integer, or NULL.
pub open spec fn optional_int(v: Option<i64>) -> SqlValue {
    match v {
        Some(n) => SqlValue::Int(n),
        None => SqlValue::Null,
    }
}

/// Binds an optional integer: the integer, or NULL.
pub fn optional_int_param(v: Option<i64>) -> (r: SqlParam)
    ensures
        r@ == optional_int(v),
{
    match v {
        Some(n) => SqlParam::Int(n),
        None => SqlParam::Null,
    }
}

/// The integer parameter of an optional filter value.
pub open spec fn int_param(v: Option<i64>) -> Seq<SqlValue> {
    match v {
        Some(n) => seq![SqlValue::Int(n)],
        None => Seq::empty(),
    }
}

impl Conditions {
    /// `clause` with the text `v` bound, when `v` is given.
    pub fn add_text(&mut self, clause: &'static str, v: Option<&str>)
        requires
            old(self).wf(),
            count_char(clause@, '?') == 1,
        ensures
            clauses_view(final(self).clauses@) == clauses_view(old(self).clauses@) + clause_if(
                v is Some,
                clause@,
            ),
            params_view(final(self).params@) == params_view(old(self).params@) + text_param(v),
            final(self).wf(),
    {
        let ghost c0 = clauses_view(self.clauses@);
        let ghost p0 = params_view(self.params@);
        if let Some(t) = v {
            self.push1(clause, SqlParam::Text(String::from_str(t)));
            proof {
                assert(clauses_view(self.clauses@) =~= c0 + clause_if(true, clause@));
                assert(params_view(self.params@) =~= p0 + text_param(v));
            }
        } else {
            proof {
                assert(clauses_view(self.clauses@) =~= c0 + clause_if(false, clause@));
                assert(params_view(self.params@) =~= p0 + text_param(v));
            }
        }
    }

    /// `clause` with the owned text `v` bound, when `v` is given.
    pub fn add_string(&mut self, clause: &'static str, v: &Option<String>)
        requires
            old(self).wf(),
            count_char(clause@, '?') == 1,
        ensures
            clauses_view(final(self).clauses@) == clauses_view(old(self).clauses@) + clause_if(
                v is Some,
                clause@,
            ),
            params_view(final(self).params@) == params_view(old(self).params@) + string_param(*v),
            final(self).wf(),
    {
        let ghost c0 = clauses_view(self.clauses@);
        let ghost p0 = params_view(self.params@);
        match v {
            Some(t) => {
                self.push1(clause, SqlParam::Text(String::from_str(t.as_str())));
                proof {
                    assert(clauses_view(self.clauses@) =~= c0 + clause_if(true, clause@));
                    assert(params_view(self.params@) =~= p0 + string_param(*v));
                }
            },
            None => {
                proof {
                    assert(clauses_view(self.clauses@) =~= c0 + clause_if(false, clause@));
                    assert(params_view(self.params@) =~= p0 + string_param(*v));
                }
            },
        }
    }

    /// `clause` with the pattern `%v%` bound, when `v` is given.
    pub fn add_like(&mut self, clause: &'static str, v: Option<&str>)
        requires
            old(self).wf(),
            count_char(clause@, '?') == 1,
        ensures
            clauses_view(final(self).clauses@) == clauses_view(old(self).clauses@) + clause_if(
                v is Some,
                clause@,
            ),
            params_view(final(self).params@) == params_view(old(self).params@) + like_param(v),
            final(self).wf(),
    {
        let ghost c0 = clauses_view(self.clauses@);
        let ghost p0 = params_view(self.params@);
        if let Some(t) = v {
            self.push1(clause, SqlParam::Text(like_contains(t)));
            proof {
                assert(clauses_view(self.clauses@) =~= c0 + clause_if(true, clause@));
                assert(params_view(self.params@) =~= p0 + like_param(v));
            }
        } else {
            proof {
                assert(clauses_view(self.clauses@) =~= c0 + clause_if(false, clause@));
                assert(params_view(self.params@) =~= p0 + like_param(v));
            }
        }
    }

    /// `clause` with the pattern `%v%` bound, when the owned `v` is given.
    pub fn add_like_string(&mut self, clause: &'static str, v: &Option<String>)
        requires
            old(self).wf(),
            count_char(clause@, '?') == 1,
        ensures
            clauses_view(final(self).clauses@) == clauses_view(old(self).clauses@) + clause_if(
                v is Some,
                clause@,
            ),
            params_view(final(self).params@) == params_view(old(self).params@)
                + like_string_param(*v),
            final(self).wf(),
    {
        let ghost c0 = clauses_view(self.clauses@);
        let ghost p0 = params_view(self.params@);
        match v {
            Some(t) => {
                self.push1(clause, SqlParam::Text(like_contains(t.as_str())));
                proof {
                    assert(clauses_view(self.clauses@) =~= c0 + clause_if(true, clause@));
                    assert(params_view(self.params@) =~= p0 + like_string_param(*v));
                }
            },
            None => {
                proof {
                    assert(clauses_view(self.clauses@) =~= c0 + clause_if(false, clause@));
                    assert(params_view(self.params@) =~= p0 + like_string_param(*v));
                }
            },
        }
    }

    /// `clause` with the integer `v` bound, when `v` is given.
    pub fn add_int(&mut self, clause: &'static str, v: Option<i64>)
        requires
            old(self).wf(),
            count_char(clause@, '?') == 1,
        ensures
            clauses_view(final(self).clauses@) == clauses_view(old(self).clauses@) + clause_if(
                v is Some,
                clause@,
            ),
            params_view(final(self).params@) == params_view(old(self).params@) + int_param(v),
            final(self).wf(),
    {
        let ghost c0 = clauses_view(self.clauses@);
        let ghost p0 = params_view(self.params@);
        if let Some(n) = v {
            self.push1(clause, SqlParam::Int(n));
            proof {
                assert(clauses_view(self.clauses@) =~= c0 + clause_if(true, clause@));
                assert(params_view(self.params@) =~= p0 + int_param(v));
            }
        } else {
            proof {
                assert(clauses_view(self.clauses@) =~= c0 + clause_if(false, clause@));
                assert(params_view(self.params@) =~= p0 + int_param(v));
            }
        }
    }

    /// `clause`, which binds nothing, when `b` holds.
    pub fn add_flag(&mut self, clause: &'static str, b: bool)
        requires
            old(self).wf(),
            count_char(clause@, '?') == 0,
        ensures
            clauses_view(final(self).clauses@) == clauses_view(old(self).clauses@) + clause_if(
                b,
                clause@,
            ),
            params_view(final(self).params@) == params_view(old(self).params@),
            final(self).wf(),
    {
        let ghost c0 = clauses_view(self.clauses@);
        if b {
            self.push_plain(clause);
            proof {
                assert(clauses_view(self.clauses@) =~= c0 + clause_if(true, clause@));
            }
        } else {
            proof {
                assert(clauses_view(self.clauses@) =~= c0 + clause_if(false, clause@));
            }
        }
    }
}

/// ` AND ` holds no placeholder.
pub proof fn lemma_and_sep()
    ensures
        count_char(" AND "@, '?') == 0,
{
    reveal_strlit(" AND ");
    reveal_with_fuel(count_upto, 6);
}

/// ` WHERE ` holds no placeholder.
pub proof fn lemma_where_sep()
    ensures
        count_char(" WHERE "@, '?') == 0,
{
    reveal_strlit(" WHERE ");
    reveal_with_fuel(count_upto, 8);
}

/// Assembles `base`, the conditions (after `connector`), and `suffix`; the
/// parameters are those of the conditions followed by `tail`.
pub fn assemble(
    base: &str,
    connector: &str,
    conds: Conditions,
    suffix: &str,
    tail: Vec<SqlParam>,
) -> (r: SqlQuery)
    ensures
        r@.sql == base@ + conditions_text(clauses_view(conds.clauses@), connector@) + suffix@,
        r@.params == params_view(conds.params@) + params_view(tail@),
        count_char(base@, '?') == 0 && count_char(connector@, '?') == 0 && conds.wf()
            && count_char(suffix@, '?') == tail@.len() ==> well_bound(r@),
{
    let Conditions { clauses, params } = conds;
    let ghost cv = clauses_view(clauses@);
    let mut sql = String::from_str(base);
    let ghost with_base = sql@;
    if clauses.len() > 0 {
        sql.append(connector);
        append_joined(&mut sql, &clauses, " AND ");
        proof {
            assert(clauses@.map_values(|p: &str| p@) =~= cv);
        }
    }
    let ghost with_conds = sql@;
    sql.append(suffix);
    let mut all = params;
    let ghost ps = all@;
    let mut tail = tail;
    let ghost tv = tail@;
    all.append(&mut tail);
    proof {
        assert(params_view(all@) =~= params_view(ps) + params_view(tv));
        if count_char(base@, '?') == 0 && count_char(connector@, '?') == 0
            && sum_counts(cv, '?') == ps.len() && count_char(suffix@, '?') == tv.len() {
            lemma_and_sep();
            lemma_count_join(cv, " AND "@, '?');
            if cv.len() > 0 {
                lemma_count_concat(connector@, join_with(cv, " AND "@), '?');
            }
            lemma_count_concat(base@, conditions_text(cv, connector@), '?');
            lemma_count_concat(base@ + conditions_text(cv, connector@), suffix@, '?');
            assert(sql@ =~= base@ + conditions_text(cv, connector@) + suffix@);
        }
        assert(sql@ =~= base@ + conditions_text(cv, connector@) + suffix@);
    }
    SqlQuery { sql, params: all }
}

/// `(page - 1).max(0) * page_size`: the number of rows before the requested page.
pub open spec fn page_offset(page: i64, page_size: i64) -> int {
    (if page - 1 > 0 { page - 1 } else { 0 }) * page_size
}

/// The offset fits the `i64` that is bound to `OFFSET ?`.
pub open spec fn page_offset_fits(page: i64, page_size: i64) -> bool {
    i64::MIN <= page_offset(page, page_size) <= i64::MAX
}

/// Every page number of 1 or less asks for the first page: its offset is 0, so it
/// is in range whatever the page size, and its `LIMIT`/`OFFSET` values are those of
/// page 1.  (The counting statements of the paged lists do not depend on the page
/// at all.)
pub proof fn lemma_first_pages_agree(page: i64, page_size: i64)
    requires
        page <= 1,
    ensures
        page_offset(page, page_size) == 0,
        page_offset_fits(page, page_size),
        page_params(page, page_size) == page_params(1, page_size),
{
}

/// `(page - 1).max(0) * page_size`.
pub fn compute_offset(page: i64, page_size: i64) -> (r: i64)
    requires
        page_offset_fits(page, page_size),
    ensures
        r == page_offset(page, page_size),
{
    let p: i64 = if page > 1 { page - 1 } else { 0 };
    p * page_size
}

/// ` ORDER BY id DESC LIMIT ? OFFSET ?` and similar page suffixes hold two placeholders.
pub open spec fn page_params(page: i64, page_size: i64) -> Seq<SqlValue> {
    seq![SqlValue::Int(page_size), SqlValue::Int(page_offset(page, page_size) as i64)]
}

/// The `LIMIT ?` / `OFFSET ?` parameters of a page.
pub fn page_tail(page: i64, page_size: i64) -> (r: Vec<SqlParam>)
    requires
        page_offset_fits(page, page_size),
    ensures
        params_view(r@) == page_params(page, page_size),
{
    let offset = compute_offset(page, page_size);
    let mut v: Vec<SqlParam> = Vec::new();
    v.push(SqlParam::Int(page_size));
    v.push(SqlParam::Int(offset));
    proof {
        assert(params_view(v@) =~= page_params(page, page_size));
    }
    v
}

} // verus!

verus! {

/// The counting query and the page query of a filtered list: both carry the same
/// conditions with the same parameters; the page query adds `page_suffix`, whose
/// two placeholders take the page size and the offset.
pub fn paged_list(
    count_base: &str,
    list_base: &str,
    connector: &str,
    for_count: Conditions,
    for_list: Conditions,
    page_suffix: &str,
    page: i64,
    page_size: i64,
) -> (r: ListQuery)
    requires
        clauses_view(for_count.clauses@) == clauses_view(for_list.clauses@),
        params_view(for_count.params@) == params_view(for_list.params@),
        for_count.wf(),
        count_char(count_base@, '?') == 0,
        count_char(list_base@, '?') == 0,
        count_char(connector@, '?') == 0,
        count_char(page_suffix@, '?') == 2,
        page_offset_fits(page, page_size),
    ensures
        r.count@.sql == count_base@ + conditions_text(clauses_view(for_count.clauses@), connector@),
        r.count@.params == params_view(for_count.params@),
        r.list@.sql == list_base@ + conditions_text(clauses_view(for_count.clauses@), connector@)
            + page_suffix@,
        r.list@.params == params_view(for_count.params@) + page_params(page, page_size),
        well_bound(r.count@),
        well_bound(r.list@),
{
    proof {
        crate::sql_text::lemma_no_suffix();
    }
    let count = assemble(count_base, connector, for_count, crate::sql_text::NO_SUFFIX, Vec::new());
    let tail = page_tail(page, page_size);
    let list = assemble(list_base, connector, for_list, page_suffix, tail);
    proof {
        reveal_strlit("");
        assert(crate::sql_text::NO_SUFFIX@.len() == 0);
        assert(count@.sql =~= count_base@ + conditions_text(clauses_view(for_count.clauses@), connector@));
        assert(count@.params =~= params_view(for_count.params@));
    }
    ListQuery { count, list }
}

/// A filtered, unpaged list query.
pub fn filtered(base: &str, connector: &str, conds: Conditions, suffix: &str) -> (r: SqlQuery)
    requires
        conds.wf(),
        count_char(base@, '?') == 0,
        count_char(connector@, '?') == 0,
        count_char(suffix@, '?') == 0,
    ensures
        r@.sql == base@ + conditions_text(clauses_view(conds.clauses@), connector@) + suffix@,
        r@.params == params_view(conds.params@),
        well_bound(r@),
{
    let none: Vec<SqlParam> = Vec::new();
    proof {
        assert(params_view(none@) =~= Seq::<SqlValue>::empty());
    }
    let q = assemble(base, connector, conds, suffix, none);
    proof {
        assert(q@.params =~= params_view(conds.params@));
    }
    q
}

} // verus!
