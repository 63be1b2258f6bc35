//! The seamless and screen pipe repositories: their list (which writes the filter
//! values into the statement as escaped literals), their search, and their
//! partial updates.
use vstd::prelude::*;
use crate::updates::{lemma_chosen_exactly_flagged};
use crate::text::owned;
use crate::numbering::{int_text, push_i64};
use crate::paging::{order_text, SortOrder};
use crate::pipes::{bounds_ok, has_text, kind_count_base, kind_sort_view, PipeFilter, PipeType};
use crate::query::{clause_if, params_view, ListQuery, SqlParam, SqlQuery, SqlValue};
use crate::repo_text::{
    BASE_GRADE_IS, BASE_OD_AT_LEAST, BASE_OD_AT_MOST, BASE_WT_AT_LEAST, BASE_WT_AT_MOST,
    COL_CREATED_AT, GRADE_IS, LIKE_BASE_GRADE_NEXT, LIKE_BATCH_NEXT, LIKE_CLOSE,
    LIKE_GRADE_NEXT, LIKE_NUMBER_OPEN, LIMIT_WORD, LOCATION_IS, MANUFACTURER_IS, NOT_DELETED,
    OD_AT_LEAST, OD_AT_MOST, OFFSET_WORD, ORDER_BY, PIPE_TYPE_IS, QUOTE, SCREEN_COUNT_BASE,
    SCREEN_ROWS_HEAD, SCREEN_ROWS_SEARCH, SCREEN_TYPE_IS, SCREEN_UPDATE_HEAD, SCREEN_UPDATE_TAIL,
    SEAMLESS_COUNT_BASE, SEAMLESS_ROWS_HEAD, SEAMLESS_ROWS_SEARCH, SEAMLESS_UPDATE_HEAD,
    SEAMLESS_UPDATE_TAIL, SPACE, STATUS_IS, WT_AT_LEAST, WT_AT_MOST,
};
use crate::sorting::{key_view, lookup_column, pick_column, table_view};
use crate::text::{
    append_joined_strings, escape_quotes, escape_sql_literal, join_with, strings_view,
};
use crate::updates::{appended_sets, appended_update, chosen, names_view, UpdatePlan};

verus! {

/// Queries of the `seamless_pipes` table.
pub struct SeamlessPipeRepo;

/// Queries of the `screen_pipes` table.
pub struct ScreenPipeRepo;

// ---------------------------------------------------------------------------
// The list with inline literals
// ---------------------------------------------------------------------------

/// The start of the row selection of a kind's table.
pub open spec fn kind_rows_head(k: PipeType) -> Seq<char> {
    match k {
        PipeType::Seamless => SEAMLESS_ROWS_HEAD@,
        PipeType::Screen => SCREEN_ROWS_HEAD@,
    }
}

/// The grade column as the search condition names it.
pub open spec fn kind_like_grade_next(k: PipeType) -> Seq<char> {
    match k {
        PipeType::Seamless => LIKE_GRADE_NEXT@,
        PipeType::Screen => LIKE_BASE_GRADE_NEXT@,
    }
}

/// The grade condition up to its opening quote.
pub open spec fn kind_grade_is(k: PipeType) -> Seq<char> {
    match k {
        PipeType::Seamless => GRADE_IS@,
        PipeType::Screen => BASE_GRADE_IS@,
    }
}

/// The sub-type condition up to its opening quote.
pub open spec fn kind_type_is(k: PipeType) -> Seq<char> {
    match k {
        PipeType::Seamless => PIPE_TYPE_IS@,
        PipeType::Screen => SCREEN_TYPE_IS@,
    }
}

/// The size bounds up to the number: least and most outer diameter, least and
/// most wall thickness.
pub open spec fn kind_od_at_least(k: PipeType) -> Seq<char> {
    match k {
        PipeType::Seamless => OD_AT_LEAST@,
        PipeType::Screen => BASE_OD_AT_LEAST@,
    }
}

/// See `kind_od_at_least`.
pub open spec fn kind_od_at_most(k: PipeType) -> Seq<char> {
    match k {
        PipeType::Seamless => OD_AT_MOST@,
        PipeType::Screen => BASE_OD_AT_MOST@,
    }
}

/// See `kind_od_at_least`.
pub open spec fn kind_wt_at_least(k: PipeType) -> Seq<char> {
    match k {
        PipeType::Seamless => WT_AT_LEAST@,
        PipeType::Screen => BASE_WT_AT_LEAST@,
    }
}

/// See `kind_od_at_least`.
pub open spec fn kind_wt_at_most(k: PipeType) -> Seq<char> {
    match k {
        PipeType::Seamless => WT_AT_MOST@,
        PipeType::Screen => BASE_WT_AT_MOST@,
    }
}

/// The search condition: the escaped text inside `%...%` patterns on the pipe
/// number, the batch number and the grade.
pub open spec fn inline_search(k: PipeType, q: Seq<char>) -> Seq<char> {
    let e = escape_quotes(q);
    LIKE_NUMBER_OPEN@ + e + LIKE_BATCH_NEXT@ + e + kind_like_grade_next(k) + e + LIKE_CLOSE@
}

/// `prefix`, the escaped value and a closing quote.
pub open spec fn quoted_is(prefix: Seq<char>, v: Seq<char>) -> Seq<char> {
    prefix + escape_quotes(v) + QUOTE@
}

/// A condition on an optional quoted value.
pub open spec fn quoted_clause(prefix: Seq<char>, v: Option<String>) -> Seq<Seq<char>> {
    clause_if(v is Some, quoted_is(prefix, v.unwrap()@))
}

/// A condition on an optional number given as the text `f64` prints for it (see
/// `pipes::float_text`), written into the statement as it is.
pub open spec fn number_clause(prefix: Seq<char>, v: Option<String>) -> Seq<Seq<char>> {
    clause_if(v is Some, prefix + v.unwrap()@)
}

/// The conditions of the inline list, in the order it writes them.
pub open spec fn inline_clauses(k: PipeType, f: PipeFilter) -> Seq<Seq<char>> {
    seq![NOT_DELETED@] + clause_if(has_text(f.q), inline_search(k, f.q.unwrap()@)) + quoted_clause(
        kind_grade_is(k),
        f.grade,
    ) + quoted_clause(kind_type_is(k), f.pipe_type) + quoted_clause(STATUS_IS@, f.status)
        + number_clause(kind_od_at_least(k), f.od_min) + number_clause(kind_od_at_most(k), f.od_max)
        + number_clause(kind_wt_at_least(k), f.wt_min) + number_clause(kind_wt_at_most(k), f.wt_max)
        + clause_if(f.location_id is Some, LOCATION_IS@ + int_text(f.location_id.unwrap() as int))
        + quoted_clause(MANUFACTURER_IS@, f.manufacturer)
}

fn quoted_text(prefix: &str, v: &str) -> (r: String)
    ensures
        r@ == quoted_is(prefix@, v@),
{
    let mut r = String::from_str(prefix);
    let e = escape_sql_literal(v);
    r.append(e.as_str());
    r.append(QUOTE);
    r
}

fn push_quoted(conds: &mut Vec<String>, prefix: &str, v: &Option<String>)
    ensures
        strings_view(final(conds)@) == strings_view(old(conds)@) + quoted_clause(prefix@, *v),
{
    let ghost before = strings_view(conds@);
    match v {
        Some(t) => {
            conds.push(quoted_text(prefix, t.as_str()));
        },
        None => {},
    }
    proof {
        assert(strings_view(conds@) =~= before + quoted_clause(prefix@, *v));
    }
}

fn push_number(conds: &mut Vec<String>, prefix: &str, v: &Option<String>)
    ensures
        strings_view(final(conds)@) == strings_view(old(conds)@) + number_clause(prefix@, *v),
{
    let ghost before = strings_view(conds@);
    match v {
        Some(t) => {
            let mut c = String::from_str(prefix);
            c.append(t.as_str());
            conds.push(c);
        },
        None => {},
    }
    proof {
        assert(strings_view(conds@) =~= before + number_clause(prefix@, *v));
    }
}

fn kind_texts(k: PipeType) -> (r: (&'static str, &'static str, &'static str, &'static str, &'static str, &'static str, &'static str))
    ensures
        r.0@ == kind_like_grade_next(k),
        r.1@ == kind_grade_is(k),
        r.2@ == kind_type_is(k),
        r.3@ == kind_od_at_least(k),
        r.4@ == kind_od_at_most(k),
        r.5@ == kind_wt_at_least(k),
        r.6@ == kind_wt_at_most(k),
{
    match k {
        PipeType::Seamless => (
            LIKE_GRADE_NEXT,
            GRADE_IS,
            PIPE_TYPE_IS,
            OD_AT_LEAST,
            OD_AT_MOST,
            WT_AT_LEAST,
            WT_AT_MOST,
        ),
        PipeType::Screen => (
            LIKE_BASE_GRADE_NEXT,
            BASE_GRADE_IS,
            SCREEN_TYPE_IS,
            BASE_OD_AT_LEAST,
            BASE_OD_AT_MOST,
            BASE_WT_AT_LEAST,
            BASE_WT_AT_MOST,
        ),
    }
}

fn inline_conditions(k: PipeType, f: &PipeFilter) -> (r: Vec<String>)
    ensures
        strings_view(r@) == inline_clauses(k, *f),
{
    let texts = kind_texts(k);
    let mut conds: Vec<String> = Vec::new();
    conds.push(String::from_str(NOT_DELETED));
    let ghost c1 = strings_view(conds@);
    proof {
        assert(c1 =~= seq![NOT_DELETED@]);
    }
    match &f.q {
        Some(q) => {
            if q.unicode_len() > 0 {
                let e = escape_sql_literal(q.as_str());
                let mut c = String::from_str(LIKE_NUMBER_OPEN);
                c.append(e.as_str());
                c.append(LIKE_BATCH_NEXT);
                c.append(e.as_str());
                c.append(texts.0);
                c.append(e.as_str());
                c.append(LIKE_CLOSE);
                conds.push(c);
            }
        },
        None => {},
    }
    proof {
        assert(strings_view(conds@) =~= c1 + clause_if(has_text(f.q), inline_search(k, f.q.unwrap()@)));
    }
    push_quoted(&mut conds, texts.1, &f.grade);
    push_quoted(&mut conds, texts.2, &f.pipe_type);
    push_quoted(&mut conds, STATUS_IS, &f.status);
    push_number(&mut conds, texts.3, &f.od_min);
    push_number(&mut conds, texts.4, &f.od_max);
    push_number(&mut conds, texts.5, &f.wt_min);
    push_number(&mut conds, texts.6, &f.wt_max);
    let ghost c2 = strings_view(conds@);
    match f.location_id {
        Some(id) => {
            let mut c = String::from_str(LOCATION_IS);
            push_i64(&mut c, id);
            conds.push(c);
        },
        None => {},
    }
    proof {
        assert(strings_view(conds@) =~= c2 + clause_if(
            f.location_id is Some,
            LOCATION_IS@ + int_text(f.location_id.unwrap() as int),
        ));
    }
    push_quoted(&mut conds, MANUFACTURER_IS, &f.manufacturer);
    proof {
        assert(strings_view(conds@) =~= inline_clauses(k, *f));
    }
    conds
}

/// The ORDER BY and page text of the inline list: the column, the direction,
/// then the page size and the offset written as numbers.
pub open spec fn inline_page_suffix(col: Seq<char>, order: SortOrder, page_size: i64, offset: i64) -> Seq<
    char,
> {
    ORDER_BY@ + col + SPACE@ + order_text(order) + LIMIT_WORD@ + int_text(page_size as int)
        + OFFSET_WORD@ + int_text(offset as int)
}

/// The counting and page statements of the inline list of kind `k`; neither binds
/// a parameter.
fn inline_list(
    k: PipeType,
    filter: &PipeFilter,
    sort_by: Option<&str>,
    order: SortOrder,
    page_size: i64,
    offset: i64,
) -> (r: ListQuery)
    ensures
        r.count@.sql == kind_count_base(k) + join_with(inline_clauses(k, *filter), " AND "@),
        r.count@.params.len() == 0,
        r.list@.sql == kind_rows_head(k) + join_with(inline_clauses(k, *filter), " AND "@)
            + inline_page_suffix(
            lookup_column(key_view(sort_by), kind_sort_view(k), COL_CREATED_AT@),
            order,
            page_size,
            offset,
        ),
        r.list@.params.len() == 0,
{
    let t = crate::pipes::pipe_table(k);
    let conds = inline_conditions(k, filter);
    let col = pick_column(sort_by, &t.sort_keys, COL_CREATED_AT);
    let (count_head, rows_head) = match k {
        PipeType::Seamless => (SEAMLESS_COUNT_BASE, SEAMLESS_ROWS_HEAD),
        PipeType::Screen => (SCREEN_COUNT_BASE, SCREEN_ROWS_HEAD),
    };
    let mut count_sql = String::from_str(count_head);
    append_joined_strings(&mut count_sql, &conds, " AND ");
    let mut list_sql = String::from_str(rows_head);
    append_joined_strings(&mut list_sql, &conds, " AND ");
    list_sql.append(ORDER_BY);
    list_sql.append(col);
    list_sql.append(SPACE);
    list_sql.append(order.sql());
    list_sql.append(LIMIT_WORD);
    push_i64(&mut list_sql, page_size);
    list_sql.append(OFFSET_WORD);
    push_i64(&mut list_sql, offset);
    proof {
        assert(list_sql@ =~= kind_rows_head(k) + join_with(inline_clauses(k, *filter), " AND "@)
            + inline_page_suffix(col@, order, page_size, offset));
    }
    let none1: Vec<SqlParam> = Vec::new();
    let none2: Vec<SqlParam> = Vec::new();
    ListQuery {
        count: SqlQuery { sql: count_sql, params: none1 },
        list: SqlQuery { sql: list_sql, params: none2 },
    }
}

/// A search pattern that the search binds: `%q%` with its quotes doubled.
pub open spec fn escaped_pattern(q: Seq<char>) -> Seq<char> {
    seq!['%'] + escape_quotes(q) + seq!['%']
}

fn escaped_search(sql: &'static str, query: &str) -> (r: SqlQuery)
    ensures
        r@.sql == sql@,
        r@.params == seq![
            SqlValue::Text(escaped_pattern(query@)),
            SqlValue::Text(escaped_pattern(query@)),
        ],
{
    let e = escape_sql_literal(query);
    let p1 = crate::text::like_contains(e.as_str());
    let p2 = crate::text::like_contains(e.as_str());
    let mut params: Vec<SqlParam> = Vec::new();
    params.push(SqlParam::Text(p1));
    params.push(SqlParam::Text(p2));
    proof {
        assert(params_view(params@) =~= seq![
            SqlValue::Text(escaped_pattern(query@)),
            SqlValue::Text(escaped_pattern(query@)),
        ]);
    }
    SqlQuery { sql: String::from_str(sql), params }
}

impl SeamlessPipeRepo {
    /// The list of seamless pipes: rows not deleted, narrowed by each given filter
    /// written into the statement (texts quoted with their quotes doubled; a
    /// non-empty search text matches pipe number, batch number or grade; size bounds
    /// as printed numbers, which `pipes::filter_bounds_ok` checks), ordered by the
    /// requested column (or `created_at`), one page.
    pub fn list_query(
        filter: &PipeFilter,
        sort_by: Option<&str>,
        order: SortOrder,
        page_size: i64,
        offset: i64,
    ) -> (r: ListQuery)
        requires
            bounds_ok(*filter),
        ensures
            r.count@.sql == SEAMLESS_COUNT_BASE@ + join_with(
                inline_clauses(PipeType::Seamless, *filter),
                " AND "@,
            ),
            r.count@.params.len() == 0,
            r.list@.sql == SEAMLESS_ROWS_HEAD@ + join_with(
                inline_clauses(PipeType::Seamless, *filter),
                " AND "@,
            ) + inline_page_suffix(
                lookup_column(key_view(sort_by), kind_sort_view(PipeType::Seamless), COL_CREATED_AT@),
                order,
                page_size,
                offset,
            ),
            r.list@.params.len() == 0,
    {
        inline_list(PipeType::Seamless, filter, sort_by, order, page_size, offset)
    }

    /// The fifty newest seamless pipes whose number or batch contains `query`.
    pub fn search_query(query: &str) -> (r: SqlQuery)
        ensures
            r@.sql == SEAMLESS_ROWS_SEARCH@,
            r@.params == seq![
                SqlValue::Text(escaped_pattern(query@)),
                SqlValue::Text(escaped_pattern(query@)),
            ],
    {
        escaped_search(SEAMLESS_ROWS_SEARCH, query)
    }
}

impl ScreenPipeRepo {
    /// The list of screen pipes, as the seamless list does it on the screen
    /// table's columns (grade in `base_grade`, sub-type in `screen_type`, sizes in
    /// `base_od` and `base_wt`).
    pub fn list_query(
        filter: &PipeFilter,
        sort_by: Option<&str>,
        order: SortOrder,
        page_size: i64,
        offset: i64,
    ) -> (r: ListQuery)
        requires
            bounds_ok(*filter),
        ensures
            r.count@.sql == SCREEN_COUNT_BASE@ + join_with(
                inline_clauses(PipeType::Screen, *filter),
                " AND "@,
            ),
            r.count@.params.len() == 0,
            r.list@.sql == SCREEN_ROWS_HEAD@ + join_with(
                inline_clauses(PipeType::Screen, *filter),
                " AND "@,
            ) + inline_page_suffix(
                lookup_column(key_view(sort_by), kind_sort_view(PipeType::Screen), COL_CREATED_AT@),
                order,
                page_size,
                offset,
            ),
            r.list@.params.len() == 0,
    {
        inline_list(PipeType::Screen, filter, sort_by, order, page_size, offset)
    }

    /// The fifty newest screen pipes whose number or batch contains `query`.
    pub fn search_query(query: &str) -> (r: SqlQuery)
        ensures
            r@.sql == SCREEN_ROWS_SEARCH@,
            r@.params == seq![
                SqlValue::Text(escaped_pattern(query@)),
                SqlValue::Text(escaped_pattern(query@)),
            ],
    {
        escaped_search(SCREEN_ROWS_SEARCH, query)
    }
}

/// Which fields of a seamless pipe update carry a new value.
pub struct SeamlessPipeChanges {
    pub batch_number: bool,
    pub pipe_type: bool,
    pub grade: bool,
    pub od: bool,
    pub wt: bool,
    pub length: bool,
    pub weight_per_unit: bool,
    pub end_type: bool,
    pub coupling_type: bool,
    pub coupling_od: bool,
    pub coupling_length: bool,
    pub heat_number: bool,
    pub serial_number: bool,
    pub manufacturer: bool,
    pub production_date: bool,
    pub cert_number: bool,
    pub notes: bool,
}

/// The columns a seamless pipe update may set, in the order it sets them.
pub open spec fn seamless_update_columns() -> Seq<Seq<char>> {
    seq!["batch_number"@, "pipe_type"@, "grade"@, "od"@, "wt"@, "length"@, "weight_per_unit"@, "end_type"@, "coupling_type"@, "coupling_od"@, "coupling_length"@, "heat_number"@, "serial_number"@, "manufacturer"@, "production_date"@, "cert_number"@, "notes"@]
}

/// The presence flags in column order.
pub open spec fn seamless_update_flags(c: SeamlessPipeChanges) -> Seq<bool> {
    seq![c.batch_number, c.pipe_type, c.grade, c.od, c.wt, c.length, c.weight_per_unit, c.end_type, c.coupling_type, c.coupling_od, c.coupling_length, c.heat_number, c.serial_number, c.manufacturer, c.production_date, c.cert_number, c.notes]
}

impl SeamlessPipeRepo {
    /// The update of one seamless pipe by id: `updated_at` is always reset, each
    /// supplied field is set, and the row comes back.  The new values are bound
    /// in the order of `columns`, then the id.
    pub fn update_plan(changes: &SeamlessPipeChanges) -> (r: UpdatePlan)
        ensures
            names_view(r.columns@) == chosen(seamless_update_columns(), seamless_update_flags(*changes)),
            r.sql@ == SEAMLESS_UPDATE_HEAD@ + appended_sets(chosen(seamless_update_columns(), seamless_update_flags(*changes))) + SEAMLESS_UPDATE_TAIL@,
    {
        let names: Vec<&'static str> = vec!["batch_number", "pipe_type", "grade", "od", "wt", "length", "weight_per_unit", "end_type", "coupling_type", "coupling_od", "coupling_length", "heat_number", "serial_number", "manufacturer", "production_date", "cert_number", "notes"];
        let flags: Vec<bool> = vec![changes.batch_number, changes.pipe_type, changes.grade, changes.od, changes.wt, changes.length, changes.weight_per_unit, changes.end_type, changes.coupling_type, changes.coupling_od, changes.coupling_length, changes.heat_number, changes.serial_number, changes.manufacturer, changes.production_date, changes.cert_number, changes.notes];
        proof {
            assert(names_view(names@) =~= seamless_update_columns());
            assert(flags@ =~= seamless_update_flags(*changes));
        }
        appended_update(SEAMLESS_UPDATE_HEAD, &names, &flags, SEAMLESS_UPDATE_TAIL)
    }
}
/// Which fields of a screen pipe update carry a new value.
pub struct ScreenPipeChanges {
    pub batch_number: bool,
    pub screen_type: bool,
    pub slot_size: bool,
    pub filtration_grade: bool,
    pub base_od: bool,
    pub base_wt: bool,
    pub base_grade: bool,
    pub base_end_type: bool,
    pub length: bool,
    pub weight_per_unit: bool,
    pub heat_number: bool,
    pub serial_number: bool,
    pub manufacturer: bool,
    pub production_date: bool,
    pub cert_number: bool,
    pub notes: bool,
}

/// The columns a screen pipe update may set, in the order it sets them.
pub open spec fn screen_update_columns() -> Seq<Seq<char>> {
    seq!["batch_number"@, "screen_type"@, "slot_size"@, "filtration_grade"@, "base_od"@, "base_wt"@, "base_grade"@, "base_end_type"@, "length"@, "weight_per_unit"@, "heat_number"@, "serial_number"@, "manufacturer"@, "production_date"@, "cert_number"@, "notes"@]
}

/// The presence flags in column order.
pub open spec fn screen_update_flags(c: ScreenPipeChanges) -> Seq<bool> {
    seq![c.batch_number, c.screen_type, c.slot_size, c.filtration_grade, c.base_od, c.base_wt, c.base_grade, c.base_end_type, c.length, c.weight_per_unit, c.heat_number, c.serial_number, c.manufacturer, c.production_date, c.cert_number, c.notes]
}

impl ScreenPipeRepo {
    /// The update of one screen pipe by id: `updated_at` is always reset, each
    /// supplied field is set, and the row comes back.  The new values are bound
    /// in the order of `columns`, then the id.
    pub fn update_plan(changes: &ScreenPipeChanges) -> (r: UpdatePlan)
        ensures
            names_view(r.columns@) == chosen(screen_update_columns(), screen_update_flags(*changes)),
            r.sql@ == SCREEN_UPDATE_HEAD@ + appended_sets(chosen(screen_update_columns(), screen_update_flags(*changes))) + SCREEN_UPDATE_TAIL@,
    {
        let names: Vec<&'static str> = vec!["batch_number", "screen_type", "slot_size", "filtration_grade", "base_od", "base_wt", "base_grade", "base_end_type", "length", "weight_per_unit", "heat_number", "serial_number", "manufacturer", "production_date", "cert_number", "notes"];
        let flags: Vec<bool> = vec![changes.batch_number, changes.screen_type, changes.slot_size, changes.filtration_grade, changes.base_od, changes.base_wt, changes.base_grade, changes.base_end_type, changes.length, changes.weight_per_unit, changes.heat_number, changes.serial_number, changes.manufacturer, changes.production_date, changes.cert_number, changes.notes];
        proof {
            assert(names_view(names@) =~= screen_update_columns());
            assert(flags@ =~= screen_update_flags(*changes));
        }
        appended_update(SCREEN_UPDATE_HEAD, &names, &flags, SCREEN_UPDATE_TAIL)
    }
}
/// Finds live seamless pipe `id`.
pub const SEAMLESS_FIND_BY_ID: &'static str = "SELECT id, pipe_number, batch_number, pipe_type, grade, od, wt, length, weight_per_unit, end_type, coupling_type, coupling_od, coupling_length, heat_number, serial_number, manufacturer, production_date, cert_number, location_id, status, notes, created_at, updated_at, deleted_at FROM seamless_pipes WHERE id = ? AND deleted_at IS NULL";

/// Finds the live seamless pipe numbered `pipe_number`.
pub const SEAMLESS_FIND_BY_PIPE_NUMBER: &'static str = "SELECT id, pipe_number, batch_number, pipe_type, grade, od, wt, length, weight_per_unit, end_type, coupling_type, coupling_od, coupling_length, heat_number, serial_number, manufacturer, production_date, cert_number, location_id, status, notes, created_at, updated_at, deleted_at FROM seamless_pipes WHERE pipe_number = ? AND deleted_at IS NULL";

/// Soft-deletes seamless pipe `id`.
pub const SEAMLESS_DELETE: &'static str = "UPDATE seamless_pipes SET deleted_at = datetime('now'), updated_at = datetime('now') WHERE id = ? AND deleted_at IS NULL";

impl SeamlessPipeRepo {
    /// Finds live seamless pipe `id`.
    pub fn find_by_id_query(id: i64) -> (r: SqlQuery)
        ensures
            r@.sql == SEAMLESS_FIND_BY_ID@,
            r@.params == seq![SqlValue::Int(id)],
    {
        let mut params: Vec<SqlParam> = Vec::new();
        params.push(SqlParam::Int(id));
        proof {
            assert(params_view(params@) =~= seq![SqlValue::Int(id)]);
        }
        SqlQuery { sql: owned(SEAMLESS_FIND_BY_ID), params }
    }

    /// Finds the live seamless pipe numbered `pipe_number`.
    pub fn find_by_pipe_number_query(pipe_number: &str) -> (r: SqlQuery)
        ensures
            r@.sql == SEAMLESS_FIND_BY_PIPE_NUMBER@,
            r@.params == seq![SqlValue::Text(pipe_number@)],
    {
        let mut params: Vec<SqlParam> = Vec::new();
        params.push(SqlParam::Text(owned(pipe_number)));
        proof {
            assert(params_view(params@) =~= seq![SqlValue::Text(pipe_number@)]);
        }
        SqlQuery { sql: owned(SEAMLESS_FIND_BY_PIPE_NUMBER), params }
    }

    /// Soft-deletes seamless pipe `id`.
    pub fn delete_query(id: i64) -> (r: SqlQuery)
        ensures
            r@.sql == SEAMLESS_DELETE@,
            r@.params == seq![SqlValue::Int(id)],
    {
        let mut params: Vec<SqlParam> = Vec::new();
        params.push(SqlParam::Int(id));
        proof {
            assert(params_view(params@) =~= seq![SqlValue::Int(id)]);
        }
        SqlQuery { sql: owned(SEAMLESS_DELETE), params }
    }
}

/// Finds live screen pipe `id`.
pub const SCREEN_FIND_BY_ID: &'static str = "SELECT id, pipe_number, batch_number, screen_type, slot_size, filtration_grade, base_od, base_wt, base_grade, base_end_type, length, weight_per_unit, heat_number, serial_number, manufacturer, production_date, cert_number, location_id, status, notes, created_at, updated_at, deleted_at FROM screen_pipes WHERE id = ? AND deleted_at IS NULL";

/// Finds the live screen pipe numbered `pipe_number`.
pub const SCREEN_FIND_BY_PIPE_NUMBER: &'static str = "SELECT id, pipe_number, batch_number, screen_type, slot_size, filtration_grade, base_od, base_wt, base_grade, base_end_type, length, weight_per_unit, heat_number, serial_number, manufacturer, production_date, cert_number, location_id, status, notes, created_at, updated_at, deleted_at FROM screen_pipes WHERE pipe_number = ? AND deleted_at IS NULL";

/// Soft-deletes screen pipe `id`.
pub const SCREEN_DELETE: &'static str = "UPDATE screen_pipes SET deleted_at = datetime('now'), updated_at = datetime('now') WHERE id = ? AND deleted_at IS NULL";

impl ScreenPipeRepo {
    /// Finds live screen pipe `id`.
    pub fn find_by_id_query(id: i64) -> (r: SqlQuery)
        ensures
            r@.sql == SCREEN_FIND_BY_ID@,
            r@.params == seq![SqlValue::Int(id)],
    {
        let mut params: Vec<SqlParam> = Vec::new();
        params.push(SqlParam::Int(id));
        proof {
            assert(params_view(params@) =~= seq![SqlValue::Int(id)]);
        }
        SqlQuery { sql: owned(SCREEN_FIND_BY_ID), params }
    }

    /// Finds the live screen pipe numbered `pipe_number`.
    pub fn find_by_pipe_number_query(pipe_number: &str) -> (r: SqlQuery)
        ensures
            r@.sql == SCREEN_FIND_BY_PIPE_NUMBER@,
            r@.params == seq![SqlValue::Text(pipe_number@)],
    {
        let mut params: Vec<SqlParam> = Vec::new();
        params.push(SqlParam::Text(owned(pipe_number)));
        proof {
            assert(params_view(params@) =~= seq![SqlValue::Text(pipe_number@)]);
        }
        SqlQuery { sql: owned(SCREEN_FIND_BY_PIPE_NUMBER), params }
    }

    /// Soft-deletes screen pipe `id`.
    pub fn delete_query(id: i64) -> (r: SqlQuery)
        ensures
            r@.sql == SCREEN_DELETE@,
            r@.params == seq![SqlValue::Int(id)],
    {
        let mut params: Vec<SqlParam> = Vec::new();
        params.push(SqlParam::Int(id));
        proof {
            assert(params_view(params@) =~= seq![SqlValue::Int(id)]);
        }
        SqlQuery { sql: owned(SCREEN_DELETE), params }
    }
}

/// The columns of a seamless pipe update are distinct.
proof fn lemma_seamless_columns_distinct()
    ensures
        seamless_update_columns().no_duplicates(),
{
    let cols = seamless_update_columns();
    reveal_strlit("batch_number");
    reveal_strlit("pipe_type");
    reveal_strlit("grade");
    reveal_strlit("od");
    reveal_strlit("wt");
    reveal_strlit("length");
    reveal_strlit("weight_per_unit");
    reveal_strlit("end_type");
    reveal_strlit("coupling_type");
    reveal_strlit("coupling_od");
    reveal_strlit("coupling_length");
    reveal_strlit("heat_number");
    reveal_strlit("serial_number");
    reveal_strlit("manufacturer");
    reveal_strlit("production_date");
    reveal_strlit("cert_number");
    reveal_strlit("notes");
    assert(cols.len() == 17);
    assert(cols[0].len() != cols[1].len());
    assert(cols[0].len() != cols[2].len());
    assert(cols[0].len() != cols[3].len());
    assert(cols[0].len() != cols[4].len());
    assert(cols[0].len() != cols[5].len());
    assert(cols[0].len() != cols[6].len());
    assert(cols[0].len() != cols[7].len());
    assert(cols[0].len() != cols[8].len());
    assert(cols[0].len() != cols[9].len());
    assert(cols[0].len() != cols[10].len());
    assert(cols[0].len() != cols[11].len());
    assert(cols[0].len() != cols[12].len());
    assert(cols[0][0] != cols[13][0]);
    assert(cols[0].len() != cols[14].len());
    assert(cols[0].len() != cols[15].len());
    assert(cols[0].len() != cols[16].len());
    assert(cols[1].len() != cols[2].len());
    assert(cols[1].len() != cols[3].len());
    assert(cols[1].len() != cols[4].len());
    assert(cols[1].len() != cols[5].len());
    assert(cols[1].len() != cols[6].len());
    assert(cols[1].len() != cols[7].len());
    assert(cols[1].len() != cols[8].len());
    assert(cols[1].len() != cols[9].len());
    assert(cols[1].len() != cols[10].len());
    assert(cols[1].len() != cols[11].len());
    assert(cols[1].len() != cols[12].len());
    assert(cols[1].len() != cols[13].len());
    assert(cols[1].len() != cols[14].len());
    assert(cols[1].len() != cols[15].len());
    assert(cols[1].len() != cols[16].len());
    assert(cols[2].len() != cols[3].len());
    assert(cols[2].len() != cols[4].len());
    assert(cols[2].len() != cols[5].len());
    assert(cols[2].len() != cols[6].len());
    assert(cols[2].len() != cols[7].len());
    assert(cols[2].len() != cols[8].len());
    assert(cols[2].len() != cols[9].len());
    assert(cols[2].len() != cols[10].len());
    assert(cols[2].len() != cols[11].len());
    assert(cols[2].len() != cols[12].len());
    assert(cols[2].len() != cols[13].len());
    assert(cols[2].len() != cols[14].len());
    assert(cols[2].len() != cols[15].len());
    assert(cols[2][0] != cols[16][0]);
    assert(cols[3][0] != cols[4][0]);
    assert(cols[3].len() != cols[5].len());
    assert(cols[3].len() != cols[6].len());
    assert(cols[3].len() != cols[7].len());
    assert(cols[3].len() != cols[8].len());
    assert(cols[3].len() != cols[9].len());
    assert(cols[3].len() != cols[10].len());
    assert(cols[3].len() != cols[11].len());
    assert(cols[3].len() != cols[12].len());
    assert(cols[3].len() != cols[13].len());
    assert(cols[3].len() != cols[14].len());
    assert(cols[3].len() != cols[15].len());
    assert(cols[3].len() != cols[16].len());
    assert(cols[4].len() != cols[5].len());
    assert(cols[4].len() != cols[6].len());
    assert(cols[4].len() != cols[7].len());
    assert(cols[4].len() != cols[8].len());
    assert(cols[4].len() != cols[9].len());
    assert(cols[4].len() != cols[10].len());
    assert(cols[4].len() != cols[11].len());
    assert(cols[4].len() != cols[12].len());
    assert(cols[4].len() != cols[13].len());
    assert(cols[4].len() != cols[14].len());
    assert(cols[4].len() != cols[15].len());
    assert(cols[4].len() != cols[16].len());
    assert(cols[5].len() != cols[6].len());
    assert(cols[5].len() != cols[7].len());
    assert(cols[5].len() != cols[8].len());
    assert(cols[5].len() != cols[9].len());
    assert(cols[5].len() != cols[10].len());
    assert(cols[5].len() != cols[11].len());
    assert(cols[5].len() != cols[12].len());
    assert(cols[5].len() != cols[13].len());
    assert(cols[5].len() != cols[14].len());
    assert(cols[5].len() != cols[15].len());
    assert(cols[5].len() != cols[16].len());
    assert(cols[6].len() != cols[7].len());
    assert(cols[6].len() != cols[8].len());
    assert(cols[6].len() != cols[9].len());
    assert(cols[6][0] != cols[10][0]);
    assert(cols[6].len() != cols[11].len());
    assert(cols[6].len() != cols[12].len());
    assert(cols[6].len() != cols[13].len());
    assert(cols[6][0] != cols[14][0]);
    assert(cols[6].len() != cols[15].len());
    assert(cols[6].len() != cols[16].len());
    assert(cols[7].len() != cols[8].len());
    assert(cols[7].len() != cols[9].len());
    assert(cols[7].len() != cols[10].len());
    assert(cols[7].len() != cols[11].len());
    assert(cols[7].len() != cols[12].len());
    assert(cols[7].len() != cols[13].len());
    assert(cols[7].len() != cols[14].len());
    assert(cols[7].len() != cols[15].len());
    assert(cols[7].len() != cols[16].len());
    assert(cols[8].len() != cols[9].len());
    assert(cols[8].len() != cols[10].len());
    assert(cols[8].len() != cols[11].len());
    assert(cols[8][0] != cols[12][0]);
    assert(cols[8].len() != cols[13].len());
    assert(cols[8].len() != cols[14].len());
    assert(cols[8].len() != cols[15].len());
    assert(cols[8].len() != cols[16].len());
    assert(cols[9].len() != cols[10].len());
    assert(cols[9][0] != cols[11][0]);
    assert(cols[9].len() != cols[12].len());
    assert(cols[9].len() != cols[13].len());
    assert(cols[9].len() != cols[14].len());
    assert(cols[9][1] != cols[15][1]);
    assert(cols[9].len() != cols[16].len());
    assert(cols[10].len() != cols[11].len());
    assert(cols[10].len() != cols[12].len());
    assert(cols[10].len() != cols[13].len());
    assert(cols[10][0] != cols[14][0]);
    assert(cols[10].len() != cols[15].len());
    assert(cols[10].len() != cols[16].len());
    assert(cols[11].len() != cols[12].len());
    assert(cols[11].len() != cols[13].len());
    assert(cols[11].len() != cols[14].len());
    assert(cols[11][0] != cols[15][0]);
    assert(cols[11].len() != cols[16].len());
    assert(cols[12].len() != cols[13].len());
    assert(cols[12].len() != cols[14].len());
    assert(cols[12].len() != cols[15].len());
    assert(cols[12].len() != cols[16].len());
    assert(cols[13].len() != cols[14].len());
    assert(cols[13].len() != cols[15].len());
    assert(cols[13].len() != cols[16].len());
    assert(cols[14].len() != cols[15].len());
    assert(cols[14].len() != cols[16].len());
    assert(cols[15].len() != cols[16].len());
    assert(cols.no_duplicates());
}

/// Each supplied field of a seamless pipe update sets the column of the same name, and
/// no other field does: a column is among those set exactly when its own field
/// is supplied.
pub proof fn lemma_seamless_sets_named_columns(c: SeamlessPipeChanges)
    ensures
        chosen(seamless_update_columns(), seamless_update_flags(c)).contains("batch_number"@) == c.batch_number,
        chosen(seamless_update_columns(), seamless_update_flags(c)).contains("pipe_type"@) == c.pipe_type,
        chosen(seamless_update_columns(), seamless_update_flags(c)).contains("grade"@) == c.grade,
        chosen(seamless_update_columns(), seamless_update_flags(c)).contains("od"@) == c.od,
        chosen(seamless_update_columns(), seamless_update_flags(c)).contains("wt"@) == c.wt,
        chosen(seamless_update_columns(), seamless_update_flags(c)).contains("length"@) == c.length,
        chosen(seamless_update_columns(), seamless_update_flags(c)).contains("weight_per_unit"@) == c.weight_per_unit,
        chosen(seamless_update_columns(), seamless_update_flags(c)).contains("end_type"@) == c.end_type,
        chosen(seamless_update_columns(), seamless_update_flags(c)).contains("coupling_type"@) == c.coupling_type,
        chosen(seamless_update_columns(), seamless_update_flags(c)).contains("coupling_od"@) == c.coupling_od,
        chosen(seamless_update_columns(), seamless_update_flags(c)).contains("coupling_length"@) == c.coupling_length,
        chosen(seamless_update_columns(), seamless_update_flags(c)).contains("heat_number"@) == c.heat_number,
        chosen(seamless_update_columns(), seamless_update_flags(c)).contains("serial_number"@) == c.serial_number,
        chosen(seamless_update_columns(), seamless_update_flags(c)).contains("manufacturer"@) == c.manufacturer,
        chosen(seamless_update_columns(), seamless_update_flags(c)).contains("production_date"@) == c.production_date,
        chosen(seamless_update_columns(), seamless_update_flags(c)).contains("cert_number"@) == c.cert_number,
        chosen(seamless_update_columns(), seamless_update_flags(c)).contains("notes"@) == c.notes,
{
    let cols = seamless_update_columns();
    let flags = seamless_update_flags(c);
    lemma_seamless_columns_distinct();
    assert(cols.len() == 17 && flags.len() == 17);
    assert(chosen(cols, flags).contains("batch_number"@) == c.batch_number) by {
        lemma_chosen_exactly_flagged(cols, flags, 0);
        assert(cols[0] == "batch_number"@ && flags[0] == c.batch_number);
    }
    assert(chosen(cols, flags).contains("pipe_type"@) == c.pipe_type) by {
        lemma_chosen_exactly_flagged(cols, flags, 1);
        assert(cols[1] == "pipe_type"@ && flags[1] == c.pipe_type);
    }
    assert(chosen(cols, flags).contains("grade"@) == c.grade) by {
        lemma_chosen_exactly_flagged(cols, flags, 2);
        assert(cols[2] == "grade"@ && flags[2] == c.grade);
    }
    assert(chosen(cols, flags).contains("od"@) == c.od) by {
        lemma_chosen_exactly_flagged(cols, flags, 3);
        assert(cols[3] == "od"@ && flags[3] == c.od);
    }
    assert(chosen(cols, flags).contains("wt"@) == c.wt) by {
        lemma_chosen_exactly_flagged(cols, flags, 4);
        assert(cols[4] == "wt"@ && flags[4] == c.wt);
    }
    assert(chosen(cols, flags).contains("length"@) == c.length) by {
        lemma_chosen_exactly_flagged(cols, flags, 5);
        assert(cols[5] == "length"@ && flags[5] == c.length);
    }
    assert(chosen(cols, flags).contains("weight_per_unit"@) == c.weight_per_unit) by {
        lemma_chosen_exactly_flagged(cols, flags, 6);
        assert(cols[6] == "weight_per_unit"@ && flags[6] == c.weight_per_unit);
    }
    assert(chosen(cols, flags).contains("end_type"@) == c.end_type) by {
        lemma_chosen_exactly_flagged(cols, flags, 7);
        assert(cols[7] == "end_type"@ && flags[7] == c.end_type);
    }
    assert(chosen(cols, flags).contains("coupling_type"@) == c.coupling_type) by {
        lemma_chosen_exactly_flagged(cols, flags, 8);
        assert(cols[8] == "coupling_type"@ && flags[8] == c.coupling_type);
    }
    assert(chosen(cols, flags).contains("coupling_od"@) == c.coupling_od) by {
        lemma_chosen_exactly_flagged(cols, flags, 9);
        assert(cols[9] == "coupling_od"@ && flags[9] == c.coupling_od);
    }
    assert(chosen(cols, flags).contains("coupling_length"@) == c.coupling_length) by {
        lemma_chosen_exactly_flagged(cols, flags, 10);
        assert(cols[10] == "coupling_length"@ && flags[10] == c.coupling_length);
    }
    assert(chosen(cols, flags).contains("heat_number"@) == c.heat_number) by {
        lemma_chosen_exactly_flagged(cols, flags, 11);
        assert(cols[11] == "heat_number"@ && flags[11] == c.heat_number);
    }
    assert(chosen(cols, flags).contains("serial_number"@) == c.serial_number) by {
        lemma_chosen_exactly_flagged(cols, flags, 12);
        assert(cols[12] == "serial_number"@ && flags[12] == c.serial_number);
    }
    assert(chosen(cols, flags).contains("manufacturer"@) == c.manufacturer) by {
        lemma_chosen_exactly_flagged(cols, flags, 13);
        assert(cols[13] == "manufacturer"@ && flags[13] == c.manufacturer);
    }
    assert(chosen(cols, flags).contains("production_date"@) == c.production_date) by {
        lemma_chosen_exactly_flagged(cols, flags, 14);
        assert(cols[14] == "production_date"@ && flags[14] == c.production_date);
    }
    assert(chosen(cols, flags).contains("cert_number"@) == c.cert_number) by {
        lemma_chosen_exactly_flagged(cols, flags, 15);
        assert(cols[15] == "cert_number"@ && flags[15] == c.cert_number);
    }
    assert(chosen(cols, flags).contains("notes"@) == c.notes) by {
        lemma_chosen_exactly_flagged(cols, flags, 16);
        assert(cols[16] == "notes"@ && flags[16] == c.notes);
    }
}

/// The columns of a screen pipe update are distinct.
proof fn lemma_screen_columns_distinct()
    ensures
        screen_update_columns().no_duplicates(),
{
    let cols = screen_update_columns();
    reveal_strlit("batch_number");
    reveal_strlit("screen_type");
    reveal_strlit("slot_size");
    reveal_strlit("filtration_grade");
    reveal_strlit("base_od");
    reveal_strlit("base_wt");
    reveal_strlit("base_grade");
    reveal_strlit("base_end_type");
    reveal_strlit("length");
    reveal_strlit("weight_per_unit");
    reveal_strlit("heat_number");
    reveal_strlit("serial_number");
    reveal_strlit("manufacturer");
    reveal_strlit("production_date");
    reveal_strlit("cert_number");
    reveal_strlit("notes");
    assert(cols.len() == 16);
    assert(cols[0].len() != cols[1].len());
    assert(cols[0].len() != cols[2].len());
    assert(cols[0].len() != cols[3].len());
    assert(cols[0].len() != cols[4].len());
    assert(cols[0].len() != cols[5].len());
    assert(cols[0].len() != cols[6].len());
    assert(cols[0].len() != cols[7].len());
    assert(cols[0].len() != cols[8].len());
    assert(cols[0].len() != cols[9].len());
    assert(cols[0].len() != cols[10].len());
    assert(cols[0].len() != cols[11].len());
    assert(cols[0][0] != cols[12][0]);
    assert(cols[0].len() != cols[13].len());
    assert(cols[0].len() != cols[14].len());
    assert(cols[0].len() != cols[15].len());
    assert(cols[1].len() != cols[2].len());
    assert(cols[1].len() != cols[3].len());
    assert(cols[1].len() != cols[4].len());
    assert(cols[1].len() != cols[5].len());
    assert(cols[1].len() != cols[6].len());
    assert(cols[1].len() != cols[7].len());
    assert(cols[1].len() != cols[8].len());
    assert(cols[1].len() != cols[9].len());
    assert(cols[1][0] != cols[10][0]);
    assert(cols[1].len() != cols[11].len());
    assert(cols[1].len() != cols[12].len());
    assert(cols[1].len() != cols[13].len());
    assert(cols[1][0] != cols[14][0]);
    assert(cols[1].len() != cols[15].len());
    assert(cols[2].len() != cols[3].len());
    assert(cols[2].len() != cols[4].len());
    assert(cols[2].len() != cols[5].len());
    assert(cols[2].len() != cols[6].len());
    assert(cols[2].len() != cols[7].len());
    assert(cols[2].len() != cols[8].len());
    assert(cols[2].len() != cols[9].len());
    assert(cols[2].len() != cols[10].len());
    assert(cols[2].len() != cols[11].len());
    assert(cols[2].len() != cols[12].len());
    assert(cols[2].len() != cols[13].len());
    assert(cols[2].len() != cols[14].len());
    assert(cols[2].len() != cols[15].len());
    assert(cols[3].len() != cols[4].len());
    assert(cols[3].len() != cols[5].len());
    assert(cols[3].len() != cols[6].len());
    assert(cols[3].len() != cols[7].len());
    assert(cols[3].len() != cols[8].len());
    assert(cols[3].len() != cols[9].len());
    assert(cols[3].len() != cols[10].len());
    assert(cols[3].len() != cols[11].len());
    assert(cols[3].len() != cols[12].len());
    assert(cols[3].len() != cols[13].len());
    assert(cols[3].len() != cols[14].len());
    assert(cols[3].len() != cols[15].len());
    assert(cols[4][5] != cols[5][5]);
    assert(cols[4].len() != cols[6].len());
    assert(cols[4].len() != cols[7].len());
    assert(cols[4].len() != cols[8].len());
    assert(cols[4].len() != cols[9].len());
    assert(cols[4].len() != cols[10].len());
    assert(cols[4].len() != cols[11].len());
    assert(cols[4].len() != cols[12].len());
    assert(cols[4].len() != cols[13].len());
    assert(cols[4].len() != cols[14].len());
    assert(cols[4].len() != cols[15].len());
    assert(cols[5].len() != cols[6].len());
    assert(cols[5].len() != cols[7].len());
    assert(cols[5].len() != cols[8].len());
    assert(cols[5].len() != cols[9].len());
    assert(cols[5].len() != cols[10].len());
    assert(cols[5].len() != cols[11].len());
    assert(cols[5].len() != cols[12].len());
    assert(cols[5].len() != cols[13].len());
    assert(cols[5].len() != cols[14].len());
    assert(cols[5].len() != cols[15].len());
    assert(cols[6].len() != cols[7].len());
    assert(cols[6].len() != cols[8].len());
    assert(cols[6].len() != cols[9].len());
    assert(cols[6].len() != cols[10].len());
    assert(cols[6].len() != cols[11].len());
    assert(cols[6].len() != cols[12].len());
    assert(cols[6].len() != cols[13].len());
    assert(cols[6].len() != cols[14].len());
    assert(cols[6].len() != cols[15].len());
    assert(cols[7].len() != cols[8].len());
    assert(cols[7].len() != cols[9].len());
    assert(cols[7].len() != cols[10].len());
    assert(cols[7][0] != cols[11][0]);
    assert(cols[7].len() != cols[12].len());
    assert(cols[7].len() != cols[13].len());
    assert(cols[7].len() != cols[14].len());
    assert(cols[7].len() != cols[15].len());
    assert(cols[8].len() != cols[9].len());
    assert(cols[8].len() != cols[10].len());
    assert(cols[8].len() != cols[11].len());
    assert(cols[8].len() != cols[12].len());
    assert(cols[8].len() != cols[13].len());
    assert(cols[8].len() != cols[14].len());
    assert(cols[8].len() != cols[15].len());
    assert(cols[9].len() != cols[10].len());
    assert(cols[9].len() != cols[11].len());
    assert(cols[9].len() != cols[12].len());
    assert(cols[9][0] != cols[13][0]);
    assert(cols[9].len() != cols[14].len());
    assert(cols[9].len() != cols[15].len());
    assert(cols[10].len() != cols[11].len());
    assert(cols[10].len() != cols[12].len());
    assert(cols[10].len() != cols[13].len());
    assert(cols[10][0] != cols[14][0]);
    assert(cols[10].len() != cols[15].len());
    assert(cols[11].len() != cols[12].len());
    assert(cols[11].len() != cols[13].len());
    assert(cols[11].len() != cols[14].len());
    assert(cols[11].len() != cols[15].len());
    assert(cols[12].len() != cols[13].len());
    assert(cols[12].len() != cols[14].len());
    assert(cols[12].len() != cols[15].len());
    assert(cols[13].len() != cols[14].len());
    assert(cols[13].len() != cols[15].len());
    assert(cols[14].len() != cols[15].len());
    assert(cols.no_duplicates());
}

/// Each supplied field of a screen pipe update sets the column of the same name, and
/// no other field does: a column is among those set exactly when its own field
/// is supplied.
pub proof fn lemma_screen_sets_named_columns(c: ScreenPipeChanges)
    ensures
        chosen(screen_update_columns(), screen_update_flags(c)).contains("batch_number"@) == c.batch_number,
        chosen(screen_update_columns(), screen_update_flags(c)).contains("screen_type"@) == c.screen_type,
        chosen(screen_update_columns(), screen_update_flags(c)).contains("slot_size"@) == c.slot_size,
        chosen(screen_update_columns(), screen_update_flags(c)).contains("filtration_grade"@) == c.filtration_grade,
        chosen(screen_update_columns(), screen_update_flags(c)).contains("base_od"@) == c.base_od,
        chosen(screen_update_columns(), screen_update_flags(c)).contains("base_wt"@) == c.base_wt,
        chosen(screen_update_columns(), screen_update_flags(c)).contains("base_grade"@) == c.base_grade,
        chosen(screen_update_columns(), screen_update_flags(c)).contains("base_end_type"@) == c.base_end_type,
        chosen(screen_update_columns(), screen_update_flags(c)).contains("length"@) == c.length,
        chosen(screen_update_columns(), screen_update_flags(c)).contains("weight_per_unit"@) == c.weight_per_unit,
        chosen(screen_update_columns(), screen_update_flags(c)).contains("heat_number"@) == c.heat_number,
        chosen(screen_update_columns(), screen_update_flags(c)).contains("serial_number"@) == c.serial_number,
        chosen(screen_update_columns(), screen_update_flags(c)).contains("manufacturer"@) == c.manufacturer,
        chosen(screen_update_columns(), screen_update_flags(c)).contains("production_date"@) == c.production_date,
        chosen(screen_update_columns(), screen_update_flags(c)).contains("cert_number"@) == c.cert_number,
        chosen(screen_update_columns(), screen_update_flags(c)).contains("notes"@) == c.notes,
{
    let cols = screen_update_columns();
    let flags = screen_update_flags(c);
    lemma_screen_columns_distinct();
    assert(cols.len() == 16 && flags.len() == 16);
    assert(chosen(cols, flags).contains("batch_number"@) == c.batch_number) by {
        lemma_chosen_exactly_flagged(cols, flags, 0);
        assert(cols[0] == "batch_number"@ && flags[0] == c.batch_number);
    }
    assert(chosen(cols, flags).contains("screen_type"@) == c.screen_type) by {
        lemma_chosen_exactly_flagged(cols, flags, 1);
        assert(cols[1] == "screen_type"@ && flags[1] == c.screen_type);
    }
    assert(chosen(cols, flags).contains("slot_size"@) == c.slot_size) by {
        lemma_chosen_exactly_flagged(cols, flags, 2);
        assert(cols[2] == "slot_size"@ && flags[2] == c.slot_size);
    }
    assert(chosen(cols, flags).contains("filtration_grade"@) == c.filtration_grade) by {
        lemma_chosen_exactly_flagged(cols, flags, 3);
        assert(cols[3] == "filtration_grade"@ && flags[3] == c.filtration_grade);
    }
    assert(chosen(cols, flags).contains("base_od"@) == c.base_od) by {
        lemma_chosen_exactly_flagged(cols, flags, 4);
        assert(cols[4] == "base_od"@ && flags[4] == c.base_od);
    }
    assert(chosen(cols, flags).contains("base_wt"@) == c.base_wt) by {
        lemma_chosen_exactly_flagged(cols, flags, 5);
        assert(cols[5] == "base_wt"@ && flags[5] == c.base_wt);
    }
    assert(chosen(cols, flags).contains("base_grade"@) == c.base_grade) by {
        lemma_chosen_exactly_flagged(cols, flags, 6);
        assert(cols[6] == "base_grade"@ && flags[6] == c.base_grade);
    }
    assert(chosen(cols, flags).contains("base_end_type"@) == c.base_end_type) by {
        lemma_chosen_exactly_flagged(cols, flags, 7);
        assert(cols[7] == "base_end_type"@ && flags[7] == c.base_end_type);
    }
    assert(chosen(cols, flags).contains("length"@) == c.length) by {
        lemma_chosen_exactly_flagged(cols, flags, 8);
        assert(cols[8] == "length"@ && flags[8] == c.length);
    }
    assert(chosen(cols, flags).contains("weight_per_unit"@) == c.weight_per_unit) by {
        lemma_chosen_exactly_flagged(cols, flags, 9);
        assert(cols[9] == "weight_per_unit"@ && flags[9] == c.weight_per_unit);
    }
    assert(chosen(cols, flags).contains("heat_number"@) == c.heat_number) by {
        lemma_chosen_exactly_flagged(cols, flags, 10);
        assert(cols[10] == "heat_number"@ && flags[10] == c.heat_number);
    }
    assert(chosen(cols, flags).contains("serial_number"@) == c.serial_number) by {
        lemma_chosen_exactly_flagged(cols, flags, 11);
        assert(cols[11] == "serial_number"@ && flags[11] == c.serial_number);
    }
    assert(chosen(cols, flags).contains("manufacturer"@) == c.manufacturer) by {
        lemma_chosen_exactly_flagged(cols, flags, 12);
        assert(cols[12] == "manufacturer"@ && flags[12] == c.manufacturer);
    }
    assert(chosen(cols, flags).contains("production_date"@) == c.production_date) by {
        lemma_chosen_exactly_flagged(cols, flags, 13);
        assert(cols[13] == "production_date"@ && flags[13] == c.production_date);
    }
    assert(chosen(cols, flags).contains("cert_number"@) == c.cert_number) by {
        lemma_chosen_exactly_flagged(cols, flags, 14);
        assert(cols[14] == "cert_number"@ && flags[14] == c.cert_number);
    }
    assert(chosen(cols, flags).contains("notes"@) == c.notes) by {
        lemma_chosen_exactly_flagged(cols, flags, 15);
        assert(cols[15] == "notes"@ && flags[15] == c.notes);
    }
}

} // verus!
