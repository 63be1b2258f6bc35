//! Quality certificates of pipes, the API 5CT grade reference and pipe
//! attachments: the certificate list and the certificate update.
use vstd::prelude::*;
use crate::updates::{lemma_chosen_exactly_flagged};
use crate::query::{optional_int, optional_int_param};
use crate::query::{nullable_param, nullable_text};
use crate::text::owned;
use crate::numbering::{int_text, push_i64};
use crate::paging::SortOrder;
use crate::pipes::decimal_param;
use crate::query::{
    assemble, clause_if, clauses_view, conditions_text, params_view, string_param, text_param, well_bound, Conditions,
    ListQuery, SqlParam, SqlQuery, SqlValue,
};
use crate::listing::{order_suffix, plain_page};
use crate::pipes::store_offset;
use crate::sql_text::{lemma_no_suffix, NO_SUFFIX};
use crate::repo_text::{
    lemma_col_created_at, lemma_not_deleted, lemma_pipe_type_eq, COL_CREATED_AT, LIMIT_OFFSET,
    NOT_DELETED, PIPE_TYPE_EQ,
};
use crate::sorting::{is_listed_column, key_view, lookup_column, pick_column, table_view};
use crate::text::{append_joined_strings, count_char, count_upto, join_with, strings_view};
use crate::error::{AppError, AppErrorView};
use crate::updates::{appended_sets, appended_update, chosen, names_view, UpdatePlan};

verus! {

/// Quality certificates (`quality_certs`).
pub struct QualityCertRepo;

/// The API 5CT grade reference table (read only).
pub struct Api5ctGradeRefRepo;

/// Files attached to pipes.
pub struct PipeAttachmentRepo;

/// Counts quality certificates; the conditions follow.
pub const QC_COUNT_HEAD: &'static str = "SELECT COUNT(*) as cnt FROM quality_certs WHERE ";

/// `QC_COUNT_HEAD` holds 0 placeholders.
pub proof fn lemma_qc_count_head()
    ensures
        count_char(QC_COUNT_HEAD@, '?') == 0,
{
    reveal_strlit("SELECT COUNT(*) as cnt FROM quality_certs WHERE ");
    reveal_with_fuel(count_upto, 41);
    let s = QC_COUNT_HEAD@;
    assert(count_upto(s, '?', 40) == 0);
    assert(s.len() == 48);
}

/// Selects quality certificates; the conditions follow.
pub const QC_ROWS_HEAD: &'static str = "SELECT id, cert_number, pipe_type, pipe_id, cert_date, result, inspector, inspection_body, notes, created_at, updated_at, deleted_at FROM quality_certs WHERE ";

/// `QC_ROWS_HEAD` holds 0 placeholders.
pub proof fn lemma_qc_rows_head()
    ensures
        count_char(QC_ROWS_HEAD@, '?') == 0,
{
    reveal_strlit("SELECT id, cert_number, pipe_type, pipe_id, cert_date, result, inspector, inspection_body, notes, created_at, updated_at, deleted_at FROM quality_certs WHERE ");
    reveal_with_fuel(count_upto, 41);
    let s = QC_ROWS_HEAD@;
    assert(count_upto(s, '?', 40) == 0);
    assert(count_upto(s, '?', 80) == 0);
    assert(count_upto(s, '?', 120) == 0);
    assert(s.len() == 158);
}

/// Filter condition `pipe_id = ?`.
pub const PIPE_ID_EQ: &'static str = "pipe_id = ?";

/// `PIPE_ID_EQ` holds 1 placeholder.
pub proof fn lemma_pipe_id_eq()
    ensures
        count_char(PIPE_ID_EQ@, '?') == 1,
{
    reveal_strlit("pipe_id = ?");
    reveal_with_fuel(count_upto, 41);
    let s = PIPE_ID_EQ@;
    assert(s.len() == 11);
}

/// Filter condition `result = ?`.
pub const RESULT_EQ: &'static str = "result = ?";

/// `RESULT_EQ` holds 1 placeholder.
pub proof fn lemma_result_eq()
    ensures
        count_char(RESULT_EQ@, '?') == 1,
{
    reveal_strlit("result = ?");
    reveal_with_fuel(count_upto, 41);
    let s = RESULT_EQ@;
    assert(s.len() == 10);
}

/// Sort column `cert_number`.
pub const COL_CERT_NUMBER: &'static str = "cert_number";

/// `COL_CERT_NUMBER` holds 0 placeholders.
pub proof fn lemma_col_cert_number()
    ensures
        count_char(COL_CERT_NUMBER@, '?') == 0,
{
    reveal_strlit("cert_number");
    reveal_with_fuel(count_upto, 41);
    let s = COL_CERT_NUMBER@;
    assert(s.len() == 11);
}

/// Sort column `pipe_type`.
pub const COL_PIPE_TYPE: &'static str = "pipe_type";

/// `COL_PIPE_TYPE` holds 0 placeholders.
pub proof fn lemma_col_pipe_type()
    ensures
        count_char(COL_PIPE_TYPE@, '?') == 0,
{
    reveal_strlit("pipe_type");
    reveal_with_fuel(count_upto, 41);
    let s = COL_PIPE_TYPE@;
    assert(s.len() == 9);
}

/// Sort column `result`.
pub const COL_RESULT: &'static str = "result";

/// `COL_RESULT` holds 0 placeholders.
pub proof fn lemma_col_result()
    ensures
        count_char(COL_RESULT@, '?') == 0,
{
    reveal_strlit("result");
    reveal_with_fuel(count_upto, 41);
    let s = COL_RESULT@;
    assert(s.len() == 6);
}

/// Sort column `cert_date`.
pub const COL_CERT_DATE: &'static str = "cert_date";

/// `COL_CERT_DATE` holds 0 placeholders.
pub proof fn lemma_col_cert_date()
    ensures
        count_char(COL_CERT_DATE@, '?') == 0,
{
    reveal_strlit("cert_date");
    reveal_with_fuel(count_upto, 41);
    let s = COL_CERT_DATE@;
    assert(s.len() == 9);
}

/// Sort column `inspector`.
pub const COL_INSPECTOR: &'static str = "inspector";

/// `COL_INSPECTOR` holds 0 placeholders.
pub proof fn lemma_col_inspector()
    ensures
        count_char(COL_INSPECTOR@, '?') == 0,
{
    reveal_strlit("inspector");
    reveal_with_fuel(count_upto, 41);
    let s = COL_INSPECTOR@;
    assert(s.len() == 9);
}

/// Starts an update of a quality certificate.
pub const QC_UPDATE_HEAD: &'static str = "UPDATE quality_certs SET updated_at = datetime('now')";

/// Ends an update of one certificate by id and returns its columns.
pub const QC_UPDATE_TAIL: &'static str = " WHERE id = ? AND deleted_at IS NULL RETURNING id, cert_number, pipe_type, pipe_id, cert_date, result, inspector, inspection_body, notes, created_at, updated_at, deleted_at";

/// The filters of the certificate list.
pub struct QualityCertFilter {
    pub pipe_type: Option<String>,
    pub pipe_id: Option<i64>,
    pub result: Option<String>,
}

/// The conditions of the certificate list, in the order it writes them.
pub open spec fn cert_clauses(f: QualityCertFilter) -> Seq<Seq<char>> {
    seq![NOT_DELETED@] + clause_if(f.pipe_type is Some, PIPE_TYPE_EQ@) + clause_if(
        f.pipe_id is Some,
        PIPE_ID_EQ@,
    ) + clause_if(f.result is Some, RESULT_EQ@)
}

/// The values bound to the certificate conditions: the pipe type, the pipe id as
/// its decimal text, the result.
pub open spec fn cert_params(f: QualityCertFilter) -> Seq<SqlValue> {
    string_param(f.pipe_type) + decimal_param(f.pipe_id) + string_param(f.result)
}

/// Sort keys of the certificate list, each naming its own column.
pub open spec fn cert_sort_view() -> Seq<(Seq<char>, Seq<char>)> {
    seq![
        (COL_CERT_NUMBER@, COL_CERT_NUMBER@),
        (COL_PIPE_TYPE@, COL_PIPE_TYPE@),
        (COL_RESULT@, COL_RESULT@),
        (COL_CERT_DATE@, COL_CERT_DATE@),
        (COL_INSPECTOR@, COL_INSPECTOR@),
    ]
}

fn cert_conditions(f: &QualityCertFilter) -> (r: Conditions)
    ensures
        clauses_view(r.clauses@) == cert_clauses(*f),
        params_view(r.params@) == cert_params(*f),
        r.wf(),
{
    proof {
        lemma_not_deleted();
        lemma_pipe_type_eq();
        lemma_pipe_id_eq();
        lemma_result_eq();
    }
    let mut c = Conditions::new();
    c.push_plain(NOT_DELETED);
    proof {
        assert(clauses_view(c.clauses@) =~= seq![NOT_DELETED@]);
        assert(params_view(c.params@) =~= Seq::<SqlValue>::empty());
    }
    c.add_string(PIPE_TYPE_EQ, &f.pipe_type);
    let ghost c1 = clauses_view(c.clauses@);
    let ghost p1 = params_view(c.params@);
    match f.pipe_id {
        Some(id) => {
            let mut text = String::new();
            push_i64(&mut text, id);
            proof {
                assert(text@ =~= int_text(id as int));
            }
            c.push1(PIPE_ID_EQ, SqlParam::Text(text));
        },
        None => {},
    }
    proof {
        assert(clauses_view(c.clauses@) =~= c1 + clause_if(f.pipe_id is Some, PIPE_ID_EQ@));
        assert(params_view(c.params@) =~= p1 + decimal_param(f.pipe_id));
    }
    c.add_string(RESULT_EQ, &f.result);
    proof {
        assert(clauses_view(c.clauses@) =~= cert_clauses(*f));
        assert(params_view(c.params@) =~= cert_params(*f));
    }
    c
}

fn cert_sort_keys() -> (r: Vec<(&'static str, &'static str)>)
    ensures
        table_view(r@) == cert_sort_view(),
        forall|i: int| 0 <= i < r@.len() ==> count_char((#[trigger] r@[i]).1@, '?') == 0,
{
    proof {
        lemma_col_cert_number();
        lemma_col_pipe_type();
        lemma_col_result();
        lemma_col_cert_date();
        lemma_col_inspector();
    }
    let r = vec![
        (COL_CERT_NUMBER, COL_CERT_NUMBER),
        (COL_PIPE_TYPE, COL_PIPE_TYPE),
        (COL_RESULT, COL_RESULT),
        (COL_CERT_DATE, COL_CERT_DATE),
        (COL_INSPECTOR, COL_INSPECTOR),
    ];
    proof {
        assert(table_view(r@) =~= cert_sort_view());
    }
    r
}

/// A column picked from a table whose columns hold no placeholder holds none.
pub proof fn lemma_listed_plain(
    c: Seq<char>,
    keys: Seq<(&'static str, &'static str)>,
    default: Seq<char>,
)
    requires
        is_listed_column(c, table_view(keys), default),
        count_char(default, '?') == 0,
        forall|i: int| 0 <= i < keys.len() ==> count_char((#[trigger] keys[i]).1@, '?') == 0,
    ensures
        count_char(c, '?') == 0,
{
    if c != default {
        let i = choose|i: int|
            0 <= i < table_view(keys).len() && c == (#[trigger] table_view(keys)[i]).1;
        assert(table_view(keys)[i].1 == keys[i].1@);
    }
}

impl QualityCertRepo {
    /// The counting and page statements of the certificate list: certificates not
    /// deleted, narrowed by each given filter, ordered by the requested column (or
    /// `created_at`) in `order`, one page of `page_size` rows after `offset` rows.
    pub fn list_query(
        filter: &QualityCertFilter,
        sort_by: Option<&str>,
        order: SortOrder,
        page_size: i64,
        offset: i64,
    ) -> (r: ListQuery)
        ensures
            r.count@.sql == QC_COUNT_HEAD@ + conditions_text(cert_clauses(*filter), ""@),
            r.count@.params == cert_params(*filter),
            r.list@.sql == QC_ROWS_HEAD@ + conditions_text(cert_clauses(*filter), ""@)
                + order_suffix(
                lookup_column(key_view(sort_by), cert_sort_view(), COL_CREATED_AT@),
                order,
                LIMIT_OFFSET@,
            ),
            r.list@.params == cert_params(*filter) + seq![
                SqlValue::Int(page_size),
                SqlValue::Int(offset),
            ],
            well_bound(r.count@),
            well_bound(r.list@),
    {
        let a = cert_conditions(filter);
        let b = cert_conditions(filter);
        let keys = cert_sort_keys();
        let col = pick_column(sort_by, &keys, COL_CREATED_AT);
        proof {
            lemma_col_created_at();
            lemma_listed_plain(col@, keys@, COL_CREATED_AT@);
            lemma_qc_count_head();
            lemma_qc_rows_head();
        }
        plain_page(QC_COUNT_HEAD, QC_ROWS_HEAD, a, b, col, order, page_size, offset)
    }
}

/// Which fields of a certificate update carry a new value.
pub struct QualityCertChanges {
    pub cert_date: bool,
    pub result: bool,
    pub inspector: bool,
    pub inspection_body: bool,
    pub notes: bool,
}

/// The columns a certificate update may set, in the order it sets them.
pub open spec fn quality_cert_changes_columns() -> Seq<Seq<char>> {
    seq!["cert_date"@, "result"@, "inspector"@, "inspection_body"@, "notes"@]
}

/// The presence flags of a certificate update in column order.
pub open spec fn quality_cert_changes_flags(c: QualityCertChanges) -> Seq<bool> {
    seq![c.cert_date, c.result, c.inspector, c.inspection_body, c.notes]
}

impl QualityCertRepo {
    /// The update of one row by id: `updated_at` is always reset, each supplied
    /// field is set, and the row comes back.  The new values are bound in the order
    /// of `columns`, then the id.
    pub fn update_plan(changes: &QualityCertChanges) -> (r: UpdatePlan)
        ensures
            names_view(r.columns@) == chosen(quality_cert_changes_columns(), quality_cert_changes_flags(*changes)),
            r.sql@ == QC_UPDATE_HEAD@ + appended_sets(chosen(quality_cert_changes_columns(), quality_cert_changes_flags(*changes))) + QC_UPDATE_TAIL@,
    {
        let names: Vec<&'static str> = vec!["cert_date", "result", "inspector", "inspection_body", "notes"];
        let flags: Vec<bool> = vec![changes.cert_date, changes.result, changes.inspector, changes.inspection_body, changes.notes];
        proof {
            assert(names_view(names@) =~= quality_cert_changes_columns());
            assert(flags@ =~= quality_cert_changes_flags(*changes));
        }
        appended_update(QC_UPDATE_HEAD, &names, &flags, QC_UPDATE_TAIL)
    }
}


/// Reference grades of the certificate register.
pub struct GradeRefRepo;

/// Files attached to pipes in the certificate register.
pub struct AttachmentRepo;

/// The message for a grade that the reference table does not hold.
pub open spec fn grade_not_found_message(grade: Seq<char>) -> Seq<char> {
    "Grade reference '"@ + grade + "' not found"@
}

impl GradeRefRepo {
    /// The error for a grade that the reference table does not hold.
    pub fn not_found(grade: &str) -> (r: AppError)
        ensures
            r@ == AppErrorView::NotFound(grade_not_found_message(grade@)),
    {
        let mut m = String::from_str("Grade reference '");
        m.append(grade);
        m.append("' not found");
        AppError::NotFound(m)
    }
}

/// The columns of the certificate register that an update may set, in order.
pub open spec fn register_columns() -> Seq<Seq<char>> {
    seq!["cert_no"@, "inspect_date"@, "inspector"@, "agency"@, "result"@, "items_json"@, "notes"@]
}

/// The given values among `vals`, in order.
pub open spec fn given_texts(vals: Seq<Option<&str>>) -> Seq<SqlValue>
    decreases vals.len(),
{
    if vals.len() == 0 {
        Seq::empty()
    } else {
        given_texts(vals.drop_last()) + match vals.last() {
            Some(t) => seq![SqlValue::Text(t@)],
            None => Seq::<SqlValue>::empty(),
        }
    }
}

/// Whether each value is given.
pub open spec fn given_flags(vals: Seq<Option<&str>>) -> Seq<bool> {
    vals.map_values(|v: Option<&str>| v is Some)
}

/// `col = ?` for each set column, then the refresh of `updated_at`, separated by `, `.
pub open spec fn register_sets(cols: Seq<Seq<char>>) -> Seq<char> {
    join_with(cols.map_values(|c: Seq<char>| c + " = ?"@) + seq!["updated_at = datetime('now')"@], ", "@)
}

/// The message of an update that sets nothing.
pub open spec fn nothing_to_update() -> Seq<char> {
    "No fields to update"@
}

/// The update of one register certificate by id: `col = ?` for each given field
/// and the refresh of `updated_at`; the given values are bound in column order,
/// then the id.  Refused when no field is given.
pub fn register_update_query(
    id: &str,
    cert_no: Option<&str>,
    inspect_date: Option<&str>,
    inspector: Option<&str>,
    agency: Option<&str>,
    result: Option<&str>,
    items_json: Option<&str>,
    notes: Option<&str>,
) -> (r: Result<SqlQuery, AppError>)
    ensures
        ({
            let vals = seq![cert_no, inspect_date, inspector, agency, result, items_json, notes];
            &&& r is Err <==> given_texts(vals).len() == 0
            &&& r matches Err(e) ==> e@ == AppErrorView::BadRequest(nothing_to_update())
            &&& r matches Ok(q) ==> q@.sql == "UPDATE quality_certs SET "@ + register_sets(
                chosen(register_columns(), given_flags(vals)),
            ) + " WHERE id = ? RETURNING *"@ && q@.params == given_texts(vals) + seq![
                SqlValue::Text(id@),
            ]
        }),
{
    let names: Vec<&'static str> = vec![
        "cert_no",
        "inspect_date",
        "inspector",
        "agency",
        "result",
        "items_json",
        "notes",
    ];
    let vals: Vec<Option<&str>> = vec![cert_no, inspect_date, inspector, agency, result, items_json, notes];
    let ghost sv = seq![cert_no, inspect_date, inspector, agency, result, items_json, notes];
    proof {
        assert(names_view(names@) =~= register_columns());
        assert(vals@ =~= sv);
    }
    let mut sets: Vec<String> = Vec::new();
    let mut params: Vec<SqlParam> = Vec::new();
    let mut i: usize = 0;
    while i < 7
        invariant
            i <= 7,
            names@.len() == 7,
            vals@ == sv,
            sv.len() == 7,
            register_columns().len() == 7,
            given_flags(sv).len() == 7,
            names_view(names@) == register_columns(),
            strings_view(sets@) == chosen(register_columns().take(i as int), given_flags(sv).take(i as int)).map_values(
                |c: Seq<char>| c + " = ?"@,
            ),
            params_view(params@) == given_texts(sv.take(i as int)),
        decreases 7 - i,
    {
        proof {
            assert(register_columns().take(i as int + 1).drop_last() =~= register_columns().take(i as int));
            assert(given_flags(sv).take(i as int + 1).drop_last() =~= given_flags(sv).take(i as int));
            assert(sv.take(i as int + 1).drop_last() =~= sv.take(i as int));
        }
        let ghost s0 = strings_view(sets@);
        let ghost p0 = params_view(params@);
        match vals[i] {
            Some(v) => {
                let mut s = String::from_str(names[i]);
                s.append(" = ?");
                sets.push(s);
                params.push(SqlParam::Text(String::from_str(v)));
                proof {
                    assert(names@[i as int]@ == register_columns()[i as int]);
                    assert(strings_view(sets@) =~= s0.push(register_columns()[i as int] + " = ?"@));
                    assert(params_view(params@) =~= p0.push(SqlValue::Text(v@)));
                }
            },
            None => {},
        }
        proof {
            assert(strings_view(sets@) =~= chosen(register_columns().take(i as int + 1), given_flags(sv).take(i as int + 1)).map_values(
                |c: Seq<char>| c + " = ?"@,
            ));
            assert(params_view(params@) =~= given_texts(sv.take(i as int + 1)));
        }
        i = i + 1;
    }
    proof {
        assert(register_columns().take(7) =~= register_columns());
        assert(given_flags(sv).take(7) =~= given_flags(sv));
        assert(sv.take(7) =~= sv);
    }
    if params.len() == 0 {
        return Err(AppError::BadRequest(String::from_str("No fields to update")));
    }
    let ghost given_cols = chosen(register_columns(), given_flags(sv));
    sets.push(String::from_str("updated_at = datetime('now')"));
    proof {
        assert(strings_view(sets@) =~= given_cols.map_values(|c: Seq<char>| c + " = ?"@) + seq![
            "updated_at = datetime('now')"@,
        ]);
    }
    let mut sql = String::from_str("UPDATE quality_certs SET ");
    append_joined_strings(&mut sql, &sets, ", ");
    sql.append(" WHERE id = ? RETURNING *");
    let ghost pv = params_view(params@);
    params.push(SqlParam::Text(String::from_str(id)));
    proof {
        assert(params_view(params@) =~= pv + seq![SqlValue::Text(id@)]);
    }
    Ok(SqlQuery { sql, params })
}

/// Counts register certificates; the conditions follow.
pub const REGISTER_COUNT_HEAD: &'static str = "SELECT COUNT(*) as cnt FROM quality_certs qc ";

/// `REGISTER_COUNT_HEAD` holds 0 placeholders.
pub proof fn lemma_register_count_head()
    ensures
        count_char(REGISTER_COUNT_HEAD@, '?') == 0,
{
    reveal_strlit("SELECT COUNT(*) as cnt FROM quality_certs qc ");
    reveal_with_fuel(count_upto, 41);
    let s = REGISTER_COUNT_HEAD@;
    assert(count_upto(s, '?', 40) == 0);
    assert(s.len() == 45);
}

/// Selects register certificates; the conditions follow.
pub const REGISTER_ROWS_HEAD: &'static str = "SELECT qc.* FROM quality_certs qc ";

/// `REGISTER_ROWS_HEAD` holds 0 placeholders.
pub proof fn lemma_register_rows_head()
    ensures
        count_char(REGISTER_ROWS_HEAD@, '?') == 0,
{
    reveal_strlit("SELECT qc.* FROM quality_certs qc ");
    reveal_with_fuel(count_upto, 41);
    let s = REGISTER_ROWS_HEAD@;
    assert(s.len() == 34);
}

/// Newest certificates first, one page.
pub const REGISTER_PAGE: &'static str = " ORDER BY qc.created_at DESC LIMIT ? OFFSET ?";

/// `REGISTER_PAGE` holds 2 placeholders.
pub proof fn lemma_register_page()
    ensures
        count_char(REGISTER_PAGE@, '?') == 2,
{
    reveal_strlit(" ORDER BY qc.created_at DESC LIMIT ? OFFSET ?");
    reveal_with_fuel(count_upto, 41);
    let s = REGISTER_PAGE@;
    assert(count_upto(s, '?', 40) == 1);
    assert(s.len() == 45);
}

/// Filter condition `qc.pipe_type = ?`.
pub const QC_PIPE_TYPE_EQ: &'static str = "qc.pipe_type = ?";

/// `QC_PIPE_TYPE_EQ` holds 1 placeholder.
pub proof fn lemma_qc_pipe_type_eq()
    ensures
        count_char(QC_PIPE_TYPE_EQ@, '?') == 1,
{
    reveal_strlit("qc.pipe_type = ?");
    reveal_with_fuel(count_upto, 41);
    let s = QC_PIPE_TYPE_EQ@;
    assert(s.len() == 16);
}

/// Filter condition `qc.result = ?`.
pub const QC_RESULT_EQ: &'static str = "qc.result = ?";

/// `QC_RESULT_EQ` holds 1 placeholder.
pub proof fn lemma_qc_result_eq()
    ensures
        count_char(QC_RESULT_EQ@, '?') == 1,
{
    reveal_strlit("qc.result = ?");
    reveal_with_fuel(count_upto, 41);
    let s = QC_RESULT_EQ@;
    assert(s.len() == 13);
}

/// Filter condition `qc.inspect_date >= ?`.
pub const QC_INSPECTED_FROM: &'static str = "qc.inspect_date >= ?";

/// `QC_INSPECTED_FROM` holds 1 placeholder.
pub proof fn lemma_qc_inspected_from()
    ensures
        count_char(QC_INSPECTED_FROM@, '?') == 1,
{
    reveal_strlit("qc.inspect_date >= ?");
    reveal_with_fuel(count_upto, 41);
    let s = QC_INSPECTED_FROM@;
    assert(s.len() == 20);
}

/// Filter condition `qc.inspect_date <= ?`.
pub const QC_INSPECTED_TO: &'static str = "qc.inspect_date <= ?";

/// `QC_INSPECTED_TO` holds 1 placeholder.
pub proof fn lemma_qc_inspected_to()
    ensures
        count_char(QC_INSPECTED_TO@, '?') == 1,
{
    reveal_strlit("qc.inspect_date <= ?");
    reveal_with_fuel(count_upto, 41);
    let s = QC_INSPECTED_TO@;
    assert(s.len() == 20);
}

/// Starts the conditions of a statement.
pub const WHERE_WORD: &'static str = "WHERE ";

/// `WHERE_WORD` holds 0 placeholders.
pub proof fn lemma_where_word()
    ensures
        count_char(WHERE_WORD@, '?') == 0,
{
    reveal_strlit("WHERE ");
    reveal_with_fuel(count_upto, 41);
    let s = WHERE_WORD@;
    assert(s.len() == 6);
}

/// The conditions of the register list.
pub open spec fn register_clauses(
    pipe_type: Option<&str>,
    result: Option<&str>,
    date_from: Option<&str>,
    date_to: Option<&str>,
) -> Seq<Seq<char>> {
    clause_if(pipe_type is Some, QC_PIPE_TYPE_EQ@) + clause_if(result is Some, QC_RESULT_EQ@)
        + clause_if(date_from is Some, QC_INSPECTED_FROM@) + clause_if(date_to is Some, QC_INSPECTED_TO@)
}

fn register_conditions(
    pipe_type: Option<&str>,
    result: Option<&str>,
    date_from: Option<&str>,
    date_to: Option<&str>,
) -> (r: Conditions)
    ensures
        clauses_view(r.clauses@) == register_clauses(pipe_type, result, date_from, date_to),
        params_view(r.params@) == text_param(pipe_type) + text_param(result) + text_param(date_from)
            + text_param(date_to),
        r.wf(),
{
    proof {
        lemma_qc_pipe_type_eq();
        lemma_qc_result_eq();
        lemma_qc_inspected_from();
        lemma_qc_inspected_to();
    }
    let mut c = Conditions::new();
    proof {
        assert(clauses_view(c.clauses@) =~= Seq::<Seq<char>>::empty());
        assert(params_view(c.params@) =~= Seq::<SqlValue>::empty());
    }
    c.add_text(QC_PIPE_TYPE_EQ, pipe_type);
    c.add_text(QC_RESULT_EQ, result);
    c.add_text(QC_INSPECTED_FROM, date_from);
    c.add_text(QC_INSPECTED_TO, date_to);
    proof {
        assert(clauses_view(c.clauses@) =~= register_clauses(pipe_type, result, date_from, date_to));
        assert(params_view(c.params@) =~= text_param(pipe_type) + text_param(result) + text_param(date_from)
            + text_param(date_to));
    }
    c
}

/// The counting and page statements of the certificate register: certificates
/// narrowed by pipe type, result and inspection period (each only when given),
/// newest first; the page size and the offset `(page - 1) * page_size` are bound
/// after the filter values.
pub fn register_list_query(
    pipe_type: Option<&str>,
    result: Option<&str>,
    date_from: Option<&str>,
    date_to: Option<&str>,
    page: i64,
    page_size: i64,
) -> (r: ListQuery)
    requires
        page > i64::MIN,
        i64::MIN <= store_offset(page, page_size) <= i64::MAX,
    ensures
        r.count@.sql == REGISTER_COUNT_HEAD@ + conditions_text(
            register_clauses(pipe_type, result, date_from, date_to),
            WHERE_WORD@,
        ),
        r.count@.params == text_param(pipe_type) + text_param(result) + text_param(date_from)
            + text_param(date_to),
        r.list@.sql == REGISTER_ROWS_HEAD@ + conditions_text(
            register_clauses(pipe_type, result, date_from, date_to),
            WHERE_WORD@,
        ) + REGISTER_PAGE@,
        r.list@.params == text_param(pipe_type) + text_param(result) + text_param(date_from)
            + text_param(date_to) + seq![
            SqlValue::Int(page_size),
            SqlValue::Int(store_offset(page, page_size) as i64),
        ],
        well_bound(r.count@),
        well_bound(r.list@),
{
    proof {
        lemma_register_count_head();
        lemma_register_rows_head();
        lemma_register_page();
        lemma_where_word();
        lemma_no_suffix();
        reveal_strlit("");
    }
    let a = register_conditions(pipe_type, result, date_from, date_to);
    let b = register_conditions(pipe_type, result, date_from, date_to);
    let count = assemble(REGISTER_COUNT_HEAD, WHERE_WORD, a, NO_SUFFIX, Vec::new());
    let offset = (page - 1) * page_size;
    let mut tail: Vec<SqlParam> = Vec::new();
    tail.push(SqlParam::Int(page_size));
    tail.push(SqlParam::Int(offset));
    let list = assemble(REGISTER_ROWS_HEAD, WHERE_WORD, b, REGISTER_PAGE, tail);
    proof {
        assert(NO_SUFFIX@.len() == 0);
        assert(count@.sql =~= REGISTER_COUNT_HEAD@ + conditions_text(
            register_clauses(pipe_type, result, date_from, date_to),
            WHERE_WORD@,
        ));
        assert(count@.params =~= text_param(pipe_type) + text_param(result) + text_param(date_from)
            + text_param(date_to));
        assert(list@.params =~= text_param(pipe_type) + text_param(result) + text_param(date_from)
            + text_param(date_to) + seq![
            SqlValue::Int(page_size),
            SqlValue::Int(store_offset(page, page_size) as i64),
        ]);
    }
    ListQuery { count, list }
}

/// Finds live quality certificate `id`.
pub const CERT_FIND_BY_ID: &'static str = "SELECT id, cert_number, pipe_type, pipe_id, cert_date, result, inspector, inspection_body, notes, created_at, updated_at, deleted_at FROM quality_certs WHERE id = ? AND deleted_at IS NULL";

/// Soft-deletes quality certificate `id`.
pub const CERT_DELETE: &'static str = "UPDATE quality_certs SET deleted_at = datetime('now'), updated_at = datetime('now') WHERE id = ? AND deleted_at IS NULL";

impl QualityCertRepo {
    /// Finds live quality certificate `id`.
    pub fn find_by_id_query(id: i64) -> (r: SqlQuery)
        ensures
            r@.sql == CERT_FIND_BY_ID@,
            r@.params == seq![SqlValue::Int(id)],
    {
        let mut params: Vec<SqlParam> = Vec::new();
        params.push(SqlParam::Int(id));
        proof {
            assert(params_view(params@) =~= seq![SqlValue::Int(id)]);
        }
        SqlQuery { sql: owned(CERT_FIND_BY_ID), params }
    }

    /// Soft-deletes quality certificate `id`.
    pub fn delete_query(id: i64) -> (r: SqlQuery)
        ensures
            r@.sql == CERT_DELETE@,
            r@.params == seq![SqlValue::Int(id)],
    {
        let mut params: Vec<SqlParam> = Vec::new();
        params.push(SqlParam::Int(id));
        proof {
            assert(params_view(params@) =~= seq![SqlValue::Int(id)]);
        }
        SqlQuery { sql: owned(CERT_DELETE), params }
    }
}

/// The API 5CT reference values of grade `grade`.
pub const GRADE_REF_FIND_BY_GRADE: &'static str = "SELECT id, grade, yield_strength_min, yield_strength_max, tensile_strength_min, hardness_max, carbon_content_max, manganese_content_max, phosphorus_content_max, sulfur_content_max, notes FROM api_5ct_grade_ref WHERE grade = ?";

/// The API 5CT reference values of every grade, by grade.
pub const GRADE_REF_LIST_ALL: &'static str = "SELECT id, grade, yield_strength_min, yield_strength_max, tensile_strength_min, hardness_max, carbon_content_max, manganese_content_max, phosphorus_content_max, sulfur_content_max, notes FROM api_5ct_grade_ref ORDER BY grade";

impl Api5ctGradeRefRepo {
    /// The API 5CT reference values of grade `grade`.
    pub fn find_by_grade_query(grade: &str) -> (r: SqlQuery)
        ensures
            r@.sql == GRADE_REF_FIND_BY_GRADE@,
            r@.params == seq![SqlValue::Text(grade@)],
    {
        let mut params: Vec<SqlParam> = Vec::new();
        params.push(SqlParam::Text(owned(grade)));
        proof {
            assert(params_view(params@) =~= seq![SqlValue::Text(grade@)]);
        }
        SqlQuery { sql: owned(GRADE_REF_FIND_BY_GRADE), params }
    }

    /// The API 5CT reference values of every grade, by grade.
    pub fn list_all_query() -> (r: SqlQuery)
        ensures
            r@.sql == GRADE_REF_LIST_ALL@,
            r@.params.len() == 0,
    {
        let mut params: Vec<SqlParam> = Vec::new();
        SqlQuery { sql: owned(GRADE_REF_LIST_ALL), params }
    }
}

/// The attachments of pipe `pipe_id` of kind `pipe_type`, newest first.
pub const ATTACHMENT_LIST_BY_PIPE: &'static str = "SELECT id, pipe_type, pipe_id, file_name, file_path, file_size, content_type, uploaded_by, created_at FROM pipe_attachments WHERE pipe_type = ? AND pipe_id = ? ORDER BY created_at DESC";

impl PipeAttachmentRepo {
    /// The attachments of pipe `pipe_id` of kind `pipe_type`, newest first.
    pub fn list_by_pipe_query(pipe_type: &str, pipe_id: i64) -> (r: SqlQuery)
        ensures
            r@.sql == ATTACHMENT_LIST_BY_PIPE@,
            r@.params == seq![SqlValue::Text(pipe_type@), SqlValue::Int(pipe_id)],
    {
        let mut params: Vec<SqlParam> = Vec::new();
        params.push(SqlParam::Text(owned(pipe_type)));
        params.push(SqlParam::Int(pipe_id));
        proof {
            assert(params_view(params@) =~= seq![SqlValue::Text(pipe_type@), SqlValue::Int(pipe_id)]);
        }
        SqlQuery { sql: owned(ATTACHMENT_LIST_BY_PIPE), params }
    }
}

/// Finds pipe attachment `id`.
pub const ATTACHMENT_FIND_BY_ID: &'static str = "SELECT id, pipe_type, pipe_id, file_name, file_path, file_size, content_type, uploaded_by, created_at FROM pipe_attachments WHERE id = ?";

/// Deletes pipe attachment `id`.
pub const ATTACHMENT_DELETE: &'static str = "DELETE FROM pipe_attachments WHERE id = ?";

impl PipeAttachmentRepo {
    /// Finds pipe attachment `id`.
    pub fn find_by_id_query(id: i64) -> (r: SqlQuery)
        ensures
            r@.sql == ATTACHMENT_FIND_BY_ID@,
            r@.params == seq![SqlValue::Int(id)],
    {
        let mut params: Vec<SqlParam> = Vec::new();
        params.push(SqlParam::Int(id));
        proof {
            assert(params_view(params@) =~= seq![SqlValue::Int(id)]);
        }
        SqlQuery { sql: owned(ATTACHMENT_FIND_BY_ID), params }
    }

    /// Deletes pipe attachment `id`.
    pub fn delete_query(id: i64) -> (r: SqlQuery)
        ensures
            r@.sql == ATTACHMENT_DELETE@,
            r@.params == seq![SqlValue::Int(id)],
    {
        let mut params: Vec<SqlParam> = Vec::new();
        params.push(SqlParam::Int(id));
        proof {
            assert(params_view(params@) =~= seq![SqlValue::Int(id)]);
        }
        SqlQuery { sql: owned(ATTACHMENT_DELETE), params }
    }
}

/// Stores a quality certificate and returns it.
pub const CERT_CREATE: &'static str = "INSERT INTO quality_certs (cert_number, pipe_type, pipe_id, cert_date, result, inspector, inspection_body, notes) VALUES (?, ?, ?, ?, ?, ?, ?, ?) RETURNING id, cert_number, pipe_type, pipe_id, cert_date, result, inspector, inspection_body, notes, created_at, updated_at, deleted_at";

impl QualityCertRepo {
    /// Stores a quality certificate and returns it.
    pub fn create_query(cert_number: &str, pipe_type: &str, pipe_id: i64, cert_date: Option<&str>, result: &str, inspector: Option<&str>, inspection_body: Option<&str>, notes: Option<&str>) -> (r: SqlQuery)
        ensures
            r@.sql == CERT_CREATE@,
            r@.params == seq![SqlValue::Text(cert_number@), SqlValue::Text(pipe_type@), SqlValue::Int(pipe_id), nullable_text(cert_date), SqlValue::Text(result@), nullable_text(inspector), nullable_text(inspection_body), nullable_text(notes)],
    {
        let mut params: Vec<SqlParam> = Vec::new();
        params.push(SqlParam::Text(owned(cert_number)));
        params.push(SqlParam::Text(owned(pipe_type)));
        params.push(SqlParam::Int(pipe_id));
        params.push(nullable_param(cert_date));
        params.push(SqlParam::Text(owned(result)));
        params.push(nullable_param(inspector));
        params.push(nullable_param(inspection_body));
        params.push(nullable_param(notes));
        proof {
            assert(params_view(params@) =~= seq![SqlValue::Text(cert_number@), SqlValue::Text(pipe_type@), SqlValue::Int(pipe_id), nullable_text(cert_date), SqlValue::Text(result@), nullable_text(inspector), nullable_text(inspection_body), nullable_text(notes)]);
        }
        SqlQuery { sql: owned(CERT_CREATE), params }
    }
}

/// Stores a pipe attachment's record and returns it.
pub const ATTACHMENT_CREATE: &'static str = "INSERT INTO pipe_attachments (pipe_type, pipe_id, file_name, file_path, file_size, content_type, uploaded_by) VALUES (?, ?, ?, ?, ?, ?, ?) RETURNING id, pipe_type, pipe_id, file_name, file_path, file_size, content_type, uploaded_by, created_at";

impl PipeAttachmentRepo {
    /// Stores a pipe attachment's record and returns it.
    pub fn create_query(pipe_type: &str, pipe_id: i64, file_name: &str, file_path: &str, file_size: i64, content_type: Option<&str>, uploaded_by: Option<i64>) -> (r: SqlQuery)
        ensures
            r@.sql == ATTACHMENT_CREATE@,
            r@.params == seq![SqlValue::Text(pipe_type@), SqlValue::Int(pipe_id), SqlValue::Text(file_name@), SqlValue::Text(file_path@), SqlValue::Int(file_size), nullable_text(content_type), optional_int(uploaded_by)],
    {
        let mut params: Vec<SqlParam> = Vec::new();
        params.push(SqlParam::Text(owned(pipe_type)));
        params.push(SqlParam::Int(pipe_id));
        params.push(SqlParam::Text(owned(file_name)));
        params.push(SqlParam::Text(owned(file_path)));
        params.push(SqlParam::Int(file_size));
        params.push(nullable_param(content_type));
        params.push(optional_int_param(uploaded_by));
        proof {
            assert(params_view(params@) =~= seq![SqlValue::Text(pipe_type@), SqlValue::Int(pipe_id), SqlValue::Text(file_name@), SqlValue::Text(file_path@), SqlValue::Int(file_size), nullable_text(content_type), optional_int(uploaded_by)]);
        }
        SqlQuery { sql: owned(ATTACHMENT_CREATE), params }
    }
}

/// Each supplied field of a quality certificate update sets the column of the same name, and
/// no other field does: a column is among those set exactly when its own field
/// is supplied.
pub proof fn lemma_quality_cert_sets_named_columns(c: QualityCertChanges)
    ensures
        chosen(quality_cert_changes_columns(), quality_cert_changes_flags(c)).contains("cert_date"@) == c.cert_date,
        chosen(quality_cert_changes_columns(), quality_cert_changes_flags(c)).contains("result"@) == c.result,
        chosen(quality_cert_changes_columns(), quality_cert_changes_flags(c)).contains("inspector"@) == c.inspector,
        chosen(quality_cert_changes_columns(), quality_cert_changes_flags(c)).contains("inspection_body"@) == c.inspection_body,
        chosen(quality_cert_changes_columns(), quality_cert_changes_flags(c)).contains("notes"@) == c.notes,
{
    let cols = quality_cert_changes_columns();
    let flags = quality_cert_changes_flags(c);
    reveal_strlit("cert_date");
    reveal_strlit("result");
    reveal_strlit("inspector");
    reveal_strlit("inspection_body");
    reveal_strlit("notes");
    assert(cols.len() == 5 && flags.len() == 5);
    assert(cols[0].len() != cols[1].len());
    assert(cols[0][0] != cols[2][0]);
    assert(cols[0].len() != cols[3].len());
    assert(cols[0].len() != cols[4].len());
    assert(cols[1].len() != cols[2].len());
    assert(cols[1].len() != cols[3].len());
    assert(cols[1].len() != cols[4].len());
    assert(cols[2].len() != cols[3].len());
    assert(cols[2].len() != cols[4].len());
    assert(cols[3].len() != cols[4].len());
    assert(cols.no_duplicates());
    lemma_chosen_exactly_flagged(cols, flags, 0);
    assert(cols[0] == "cert_date"@ && flags[0] == c.cert_date);
    lemma_chosen_exactly_flagged(cols, flags, 1);
    assert(cols[1] == "result"@ && flags[1] == c.result);
    lemma_chosen_exactly_flagged(cols, flags, 2);
    assert(cols[2] == "inspector"@ && flags[2] == c.inspector);
    lemma_chosen_exactly_flagged(cols, flags, 3);
    assert(cols[3] == "inspection_body"@ && flags[3] == c.inspection_body);
    lemma_chosen_exactly_flagged(cols, flags, 4);
    assert(cols[4] == "notes"@ && flags[4] == c.notes);
}

} // verus!
