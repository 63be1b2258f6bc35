//! Steel pipes, seamless and screen: the status rule, the pipe tables, and the
//! queries of the pipe repositories.
use vstd::prelude::*;
use std::marker::PhantomData;
use crate::error::{AppError, AppErrorView};
use crate::numbering::{int_text, is_digit, push_i64};
use crate::paging::{order_text, SortOrder};
use crate::query::{
    assemble, clause_if, clauses_view, nullable_param, nullable_text, conditions_text, params_view, string_param, well_bound,
    Conditions, ListQuery, SqlParam, SqlQuery, SqlValue,
};
use crate::repo_text::{
    lemma_base_grade_eq, lemma_base_od_max, lemma_base_od_min, lemma_base_wt_max,
    lemma_base_wt_min, lemma_col_base_grade, lemma_col_base_od, lemma_col_base_wt,
    lemma_col_created_at, lemma_col_grade, lemma_col_manufacturer, lemma_col_od,
    lemma_col_pipe_number, lemma_col_production_date, lemma_col_status, lemma_col_wt,
    lemma_grade_eq, lemma_heat_number_eq, lemma_limit_offset, lemma_manufacturer_eq,
    lemma_not_deleted, lemma_number_or_batch_like, lemma_od_max, lemma_od_min, lemma_order_by,
    lemma_pipe_type_eq, lemma_screen_count_base, lemma_screen_list_base, lemma_screen_search,
    lemma_screen_type_eq, lemma_seamless_count_base, lemma_seamless_list_base,
    lemma_seamless_search, lemma_space, lemma_wt_max, lemma_wt_min, lemma_asc, lemma_desc,
    lemma_seamless_by_ids, lemma_screen_by_ids, lemma_by_ids_end,
    BASE_GRADE_EQ, BASE_OD_MAX, BASE_OD_MIN, BASE_WT_MAX, BASE_WT_MIN, COL_BASE_GRADE,
    COL_BASE_OD, COL_BASE_WT, COL_CREATED_AT, COL_GRADE, COL_MANUFACTURER, COL_OD,
    COL_PIPE_NUMBER, COL_PRODUCTION_DATE, COL_STATUS, COL_WT, GRADE_EQ, HEAT_NUMBER_EQ,
    LIMIT_OFFSET, MANUFACTURER_EQ, NOT_DELETED, NUMBER_OR_BATCH_LIKE, OD_MAX, OD_MIN, ORDER_BY,
    PIPE_TYPE_EQ, SCREEN_COUNT_BASE, SCREEN_LIST_BASE, SCREEN_SEARCH, SCREEN_TYPE_EQ,
    SEAMLESS_COUNT_BASE, SEAMLESS_LIST_BASE, SEAMLESS_SEARCH, SEAMLESS_NUMBERED_LIST,
    SEAMLESS_NUMBERED_COUNT, SCREEN_NUMBERED_LIST, SCREEN_NUMBERED_COUNT, NUMBERED_PAGE, SEAMLESS_BY_IDS, SCREEN_BY_IDS, BY_IDS_END, SPACE, WT_MAX, WT_MIN,
};
use crate::sorting::{is_listed_column, key_view, lookup_column, pick_column, table_view};
use crate::sql_text::{
    lemma_location_id_eq, lemma_no_suffix, lemma_status_eq, LOCATION_ID_EQ, NO_SUFFIX, STATUS_EQ,
};
use crate::text::{count_char, count_upto, lemma_count_concat, like_contains, push_char, str_eq};

verus! {

// ---------------------------------------------------------------------------
// Status and type
// ---------------------------------------------------------------------------

/// Where a pipe is: in stock, or shipped out.
#[derive(PartialEq, Eq, Structural, Clone, Copy)]
pub enum PipeStatus {
    InStock,
    Outbound,
}

/// The status that a stored status text names.
pub open spec fn pipe_status_of(s: Seq<char>) -> Option<PipeStatus> {
    if s == "in_stock"@ {
        Some(PipeStatus::InStock)
    } else if s == "outbound"@ {
        Some(PipeStatus::Outbound)
    } else {
        None
    }
}

/// The stored text of a status.
pub open spec fn pipe_status_text(s: PipeStatus) -> Seq<char> {
    match s {
        PipeStatus::InStock => "in_stock"@,
        PipeStatus::Outbound => "outbound"@,
    }
}

/// A pipe may move from one status to the other, never to the status it has.
pub open spec fn may_transition(from: PipeStatus, to: PipeStatus) -> bool {
    from != to
}

impl PipeStatus {
    /// The status named by `s`, if any.
    pub fn from_str(s: &str) -> (r: Option<PipeStatus>)
        ensures
            r == pipe_status_of(s@),
    {
        if str_eq(s, "in_stock") {
            Some(PipeStatus::InStock)
        } else if str_eq(s, "outbound") {
            Some(PipeStatus::Outbound)
        } else {
            None
        }
    }

    /// The stored text of the status.
    pub fn as_str(&self) -> (r: &'static str)
        ensures
            r@ == pipe_status_text(*self),
    {
        match self {
            PipeStatus::InStock => "in_stock",
            PipeStatus::Outbound => "outbound",
        }
    }

    /// Whether the status may change to `target`.
    pub fn can_transition_to(&self, target: PipeStatus) -> (r: bool)
        ensures
            r == may_transition(*self, target),
    {
        *self != target
    }
}

/// Reading back the text of a status gives the status.
pub proof fn lemma_pipe_status_roundtrip(s: PipeStatus)
    ensures
        pipe_status_of(pipe_status_text(s)) == Some(s),
{
    reveal_strlit("in_stock");
    reveal_strlit("outbound");
    assert("in_stock"@[0] != "outbound"@[0]);
}

/// The two kinds of pipe, each stored in a table of its own.
#[derive(PartialEq, Eq, Structural, Clone, Copy)]
pub enum PipeType {
    Seamless,
    Screen,
}

/// The pipe kind that a text names.
pub open spec fn pipe_type_of(s: Seq<char>) -> Option<PipeType> {
    if s == "seamless"@ {
        Some(PipeType::Seamless)
    } else if s == "screen"@ {
        Some(PipeType::Screen)
    } else {
        None
    }
}

impl PipeType {
    /// The kind named by `s`, if any.
    pub fn from_pipe_type_str(s: &str) -> (r: Option<PipeType>)
        ensures
            r == pipe_type_of(s@),
    {
        if str_eq(s, "seamless") {
            Some(PipeType::Seamless)
        } else if str_eq(s, "screen") {
            Some(PipeType::Screen)
        } else {
            None
        }
    }
}

// ---------------------------------------------------------------------------
// The generic repository's status rule
// ---------------------------------------------------------------------------

/// Queries shared by both pipe tables; `P` is the kind of pipe.
pub struct GenericPipeRepo<P> {
    pub _phantom: PhantomData<P>,
}

/// The message for a current status that names no status.
pub open spec fn invalid_current_message(current: Seq<char>) -> Seq<char> {
    "Invalid current status: "@ + current
}

/// The message for a target status that names no status.
pub open spec fn invalid_target_message(target: Seq<char>) -> Seq<char> {
    "Invalid target status: "@ + target
}

/// The message for a change between statuses that is not allowed.
pub open spec fn invalid_transition_message(current: Seq<char>, target: Seq<char>) -> Seq<char> {
    "Invalid status transition from '"@ + current + "' to '"@ + target + "'"@
}

/// The outcome of a requested status change.
pub open spec fn transition_outcome(current: Seq<char>, target: Seq<char>) -> Result<
    (),
    AppErrorView,
> {
    match (pipe_status_of(current), pipe_status_of(target)) {
        (None, _) => Err(AppErrorView::Validation(invalid_current_message(current))),
        (Some(_), None) => Err(AppErrorView::Validation(invalid_target_message(target))),
        (Some(a), Some(b)) => if may_transition(a, b) {
            Ok(())
        } else {
            Err(AppErrorView::Validation(invalid_transition_message(current, target)))
        },
    }
}

/// The view of a unit result with an application error.
pub open spec fn unit_result_view(r: Result<(), AppError>) -> Result<(), AppErrorView> {
    match r {
        Ok(()) => Ok(()),
        Err(e) => Err(e@),
    }
}

impl<P> GenericPipeRepo<P> {
    /// Checks a status change: both texts must name a status, and the change must
    /// be allowed; otherwise a validation error says which check failed.
    pub fn validate_status_transition(current: &str, target: &str) -> (r: Result<(), AppError>)
        ensures
            unit_result_view(r) == transition_outcome(current@, target@),
    {
        let current_status = match PipeStatus::from_str(current) {
            Some(s) => s,
            None => {
                let mut m = String::from_str("Invalid current status: ");
                m.append(current);
                return Err(AppError::Validation(m));
            },
        };
        let target_status = match PipeStatus::from_str(target) {
            Some(s) => s,
            None => {
                let mut m = String::from_str("Invalid target status: ");
                m.append(target);
                return Err(AppError::Validation(m));
            },
        };
        if !current_status.can_transition_to(target_status) {
            let mut m = String::from_str("Invalid status transition from '");
            m.append(current);
            m.append("' to '");
            m.append(target);
            m.append("'");
            return Err(AppError::Validation(m));
        }
        Ok(())
    }
}

// ---------------------------------------------------------------------------
// The two pipe tables
// ---------------------------------------------------------------------------

/// What the shared queries need to know of a pipe table: the kind of pipe it
/// holds, the start of its counting and selecting statements, its search
/// statement, the conditions on its grade, sub-type, outer diameter and wall
/// thickness columns, and the sort keys it accepts with the column of each.
pub struct PipeTable {
    pub class: PipeType,
    pub count_base: &'static str,
    pub list_base: &'static str,
    pub search: &'static str,
    pub grade_eq: &'static str,
    pub type_eq: &'static str,
    pub od_min: &'static str,
    pub od_max: &'static str,
    pub wt_min: &'static str,
    pub wt_max: &'static str,
    pub sort_keys: Vec<(&'static str, &'static str)>,
}

/// Each text of the table holds as many placeholders as the queries bind to it.
pub open spec fn table_wf(t: PipeTable) -> bool {
    &&& count_char(t.count_base@, '?') == 0
    &&& count_char(t.list_base@, '?') == 0
    &&& count_char(t.search@, '?') == 2
    &&& count_char(t.grade_eq@, '?') == 1
    &&& count_char(t.type_eq@, '?') == 1
    &&& count_char(t.od_min@, '?') == 1
    &&& count_char(t.od_max@, '?') == 1
    &&& count_char(t.wt_min@, '?') == 1
    &&& count_char(t.wt_max@, '?') == 1
    &&& forall|i: int|
        0 <= i < t.sort_keys@.len() ==> count_char((#[trigger] t.sort_keys@[i]).1@, '?') == 0
}

/// Sort keys of seamless pipes, each naming its own column.
pub open spec fn seamless_sort_view() -> Seq<(Seq<char>, Seq<char>)> {
    seq![
        (COL_PIPE_NUMBER@, COL_PIPE_NUMBER@),
        (COL_GRADE@, COL_GRADE@),
        (COL_OD@, COL_OD@),
        (COL_WT@, COL_WT@),
        (COL_STATUS@, COL_STATUS@),
        (COL_MANUFACTURER@, COL_MANUFACTURER@),
        (COL_PRODUCTION_DATE@, COL_PRODUCTION_DATE@),
    ]
}

/// Sort keys of screen pipes, each naming its own column.
pub open spec fn screen_sort_view() -> Seq<(Seq<char>, Seq<char>)> {
    seq![
        (COL_PIPE_NUMBER@, COL_PIPE_NUMBER@),
        (COL_BASE_GRADE@, COL_BASE_GRADE@),
        (COL_BASE_OD@, COL_BASE_OD@),
        (COL_BASE_WT@, COL_BASE_WT@),
        (COL_STATUS@, COL_STATUS@),
        (COL_MANUFACTURER@, COL_MANUFACTURER@),
        (COL_PRODUCTION_DATE@, COL_PRODUCTION_DATE@),
    ]
}

/// `seamless_pipes`: grade in `grade`, sub-type in `pipe_type`, sizes in `od` and `wt`.
pub fn seamless_table() -> (r: PipeTable)
    ensures
        r.class == PipeType::Seamless,
        r.count_base@ == SEAMLESS_COUNT_BASE@,
        r.list_base@ == SEAMLESS_LIST_BASE@,
        r.search@ == SEAMLESS_SEARCH@,
        r.grade_eq@ == GRADE_EQ@,
        r.type_eq@ == PIPE_TYPE_EQ@,
        r.od_min@ == OD_MIN@,
        r.od_max@ == OD_MAX@,
        r.wt_min@ == WT_MIN@,
        r.wt_max@ == WT_MAX@,
        table_view(r.sort_keys@) == seamless_sort_view(),
        table_wf(r),
{
    proof {
        lemma_seamless_count_base();
        lemma_seamless_list_base();
        lemma_seamless_search();
        lemma_grade_eq();
        lemma_pipe_type_eq();
        lemma_od_min();
        lemma_od_max();
        lemma_wt_min();
        lemma_wt_max();
        lemma_col_pipe_number();
        lemma_col_grade();
        lemma_col_od();
        lemma_col_wt();
        lemma_col_status();
        lemma_col_manufacturer();
        lemma_col_production_date();
    }
    let sort_keys = vec![
        (COL_PIPE_NUMBER, COL_PIPE_NUMBER),
        (COL_GRADE, COL_GRADE),
        (COL_OD, COL_OD),
        (COL_WT, COL_WT),
        (COL_STATUS, COL_STATUS),
        (COL_MANUFACTURER, COL_MANUFACTURER),
        (COL_PRODUCTION_DATE, COL_PRODUCTION_DATE),
    ];
    proof {
        assert(table_view(sort_keys@) =~= seamless_sort_view());
    }
    PipeTable {
        class: PipeType::Seamless,
        count_base: SEAMLESS_COUNT_BASE,
        list_base: SEAMLESS_LIST_BASE,
        search: SEAMLESS_SEARCH,
        grade_eq: GRADE_EQ,
        type_eq: PIPE_TYPE_EQ,
        od_min: OD_MIN,
        od_max: OD_MAX,
        wt_min: WT_MIN,
        wt_max: WT_MAX,
        sort_keys,
    }
}

/// `screen_pipes`: grade in `base_grade`, sub-type in `screen_type`, sizes in
/// `base_od` and `base_wt`.
pub fn screen_table() -> (r: PipeTable)
    ensures
        r.class == PipeType::Screen,
        r.count_base@ == SCREEN_COUNT_BASE@,
        r.list_base@ == SCREEN_LIST_BASE@,
        r.search@ == SCREEN_SEARCH@,
        r.grade_eq@ == BASE_GRADE_EQ@,
        r.type_eq@ == SCREEN_TYPE_EQ@,
        r.od_min@ == BASE_OD_MIN@,
        r.od_max@ == BASE_OD_MAX@,
        r.wt_min@ == BASE_WT_MIN@,
        r.wt_max@ == BASE_WT_MAX@,
        table_view(r.sort_keys@) == screen_sort_view(),
        table_wf(r),
{
    proof {
        lemma_screen_count_base();
        lemma_screen_list_base();
        lemma_screen_search();
        lemma_base_grade_eq();
        lemma_screen_type_eq();
        lemma_base_od_min();
        lemma_base_od_max();
        lemma_base_wt_min();
        lemma_base_wt_max();
        lemma_col_pipe_number();
        lemma_col_base_grade();
        lemma_col_base_od();
        lemma_col_base_wt();
        lemma_col_status();
        lemma_col_manufacturer();
        lemma_col_production_date();
    }
    let sort_keys = vec![
        (COL_PIPE_NUMBER, COL_PIPE_NUMBER),
        (COL_BASE_GRADE, COL_BASE_GRADE),
        (COL_BASE_OD, COL_BASE_OD),
        (COL_BASE_WT, COL_BASE_WT),
        (COL_STATUS, COL_STATUS),
        (COL_MANUFACTURER, COL_MANUFACTURER),
        (COL_PRODUCTION_DATE, COL_PRODUCTION_DATE),
    ];
    proof {
        assert(table_view(sort_keys@) =~= screen_sort_view());
    }
    PipeTable {
        class: PipeType::Screen,
        count_base: SCREEN_COUNT_BASE,
        list_base: SCREEN_LIST_BASE,
        search: SCREEN_SEARCH,
        grade_eq: BASE_GRADE_EQ,
        type_eq: SCREEN_TYPE_EQ,
        od_min: BASE_OD_MIN,
        od_max: BASE_OD_MAX,
        wt_min: BASE_WT_MIN,
        wt_max: BASE_WT_MAX,
        sort_keys,
    }
}

/// The start of the counting statement of a kind's table.
pub open spec fn kind_count_base(k: PipeType) -> Seq<char> {
    match k {
        PipeType::Seamless => SEAMLESS_COUNT_BASE@,
        PipeType::Screen => SCREEN_COUNT_BASE@,
    }
}

/// The start of the selecting statement of a kind's table.
pub open spec fn kind_list_base(k: PipeType) -> Seq<char> {
    match k {
        PipeType::Seamless => SEAMLESS_LIST_BASE@,
        PipeType::Screen => SCREEN_LIST_BASE@,
    }
}

/// The search statement of a kind's table.
pub open spec fn kind_search(k: PipeType) -> Seq<char> {
    match k {
        PipeType::Seamless => SEAMLESS_SEARCH@,
        PipeType::Screen => SCREEN_SEARCH@,
    }
}

/// The four column conditions of a kind's table: grade, sub-type, smallest and
/// largest outer diameter, smallest and largest wall thickness.
pub open spec fn kind_grade_eq(k: PipeType) -> Seq<char> {
    match k {
        PipeType::Seamless => GRADE_EQ@,
        PipeType::Screen => BASE_GRADE_EQ@,
    }
}

/// See `kind_grade_eq`.
pub open spec fn kind_type_eq(k: PipeType) -> Seq<char> {
    match k {
        PipeType::Seamless => PIPE_TYPE_EQ@,
        PipeType::Screen => SCREEN_TYPE_EQ@,
    }
}

/// See `kind_grade_eq`.
pub open spec fn kind_od_min(k: PipeType) -> Seq<char> {
    match k {
        PipeType::Seamless => OD_MIN@,
        PipeType::Screen => BASE_OD_MIN@,
    }
}

/// See `kind_grade_eq`.
pub open spec fn kind_od_max(k: PipeType) -> Seq<char> {
    match k {
        PipeType::Seamless => OD_MAX@,
        PipeType::Screen => BASE_OD_MAX@,
    }
}

/// See `kind_grade_eq`.
pub open spec fn kind_wt_min(k: PipeType) -> Seq<char> {
    match k {
        PipeType::Seamless => WT_MIN@,
        PipeType::Screen => BASE_WT_MIN@,
    }
}

/// See `kind_grade_eq`.
pub open spec fn kind_wt_max(k: PipeType) -> Seq<char> {
    match k {
        PipeType::Seamless => WT_MAX@,
        PipeType::Screen => BASE_WT_MAX@,
    }
}

/// The sort keys of a kind's table.
pub open spec fn kind_sort_view(k: PipeType) -> Seq<(Seq<char>, Seq<char>)> {
    match k {
        PipeType::Seamless => seamless_sort_view(),
        PipeType::Screen => screen_sort_view(),
    }
}

/// `t` is the table of kind `k`.
pub open spec fn table_of(t: PipeTable, k: PipeType) -> bool {
    &&& t.class == k
    &&& t.count_base@ == kind_count_base(k)
    &&& t.list_base@ == kind_list_base(k)
    &&& t.search@ == kind_search(k)
    &&& t.grade_eq@ == kind_grade_eq(k)
    &&& t.type_eq@ == kind_type_eq(k)
    &&& t.od_min@ == kind_od_min(k)
    &&& t.od_max@ == kind_od_max(k)
    &&& t.wt_min@ == kind_wt_min(k)
    &&& t.wt_max@ == kind_wt_max(k)
    &&& table_view(t.sort_keys@) == kind_sort_view(k)
}

/// The table of a kind of pipe.
pub fn pipe_table(k: PipeType) -> (r: PipeTable)
    ensures
        table_of(r, k),
        table_wf(r),
{
    match k {
        PipeType::Seamless => seamless_table(),
        PipeType::Screen => screen_table(),
    }
}

// ---------------------------------------------------------------------------
// The shared list, search and lookup queries
// ---------------------------------------------------------------------------

/// The filters of a pipe list.  The diameter and wall-thickness bounds arrive as
/// the decimal text of the number, as the list binds them.
pub struct PipeFilter {
    pub q: Option<String>,
    pub grade: Option<String>,
    pub pipe_type: Option<String>,
    pub status: Option<String>,
    pub od_min: Option<String>,
    pub od_max: Option<String>,
    pub wt_min: Option<String>,
    pub wt_max: Option<String>,
    pub location_id: Option<i64>,
    pub manufacturer: Option<String>,
    pub heat_number: Option<String>,
}

/// A run of digits with at most one point, which neither starts nor ends it.
pub open spec fn numeral_body(s: Seq<char>) -> bool {
    &&& s.len() > 0
    &&& is_digit(s[0])
    &&& is_digit(s[s.len() - 1])
    &&& forall|i: int| 0 <= i < s.len() ==> is_digit(#[trigger] s[i]) || s[i] == '.'
    &&& count_char(s, '.') <= 1
}

/// A text that `f64`'s `Display` can print: a decimal numeral with an optional
/// minus sign (never an exponent), or `NaN`, `inf` or `-inf`.
pub open spec fn float_text(s: Seq<char>) -> bool {
    ||| s == "NaN"@
    ||| s == "inf"@
    ||| s == "-inf"@
    ||| numeral_body(s)
    ||| (s.len() > 1 && s[0] == '-' && numeral_body(s.subrange(1, s.len() as int)))
}

/// An optional size bound is absent or a printed `f64`.
pub open spec fn bound_ok(v: Option<String>) -> bool {
    v matches Some(t) ==> float_text(t@)
}

/// The size bounds of a filter are printed `f64`s, as the numbers they stand for.
pub open spec fn bounds_ok(f: PipeFilter) -> bool {
    bound_ok(f.od_min) && bound_ok(f.od_max) && bound_ok(f.wt_min) && bound_ok(f.wt_max)
}

/// A count over a longer prefix is no smaller.
proof fn lemma_count_upto_grows(t: Seq<char>, c: char, k: int, m: int)
    requires
        0 <= k <= m <= t.len(),
    ensures
        count_upto(t, c, k) <= count_upto(t, c, m),
    decreases m - k,
{
    if m > k {
        lemma_count_upto_grows(t, c, k, m - 1);
    }
}

fn numeral_from(s: &str, start: usize) -> (r: bool)
    requires
        start <= s@.len(),
    ensures
        r == numeral_body(s@.subrange(start as int, s@.len() as int)),
{
    let n = s.unicode_len();
    let ghost t = s@.subrange(start as int, s@.len() as int);
    if start >= n {
        return false;
    }
    let mut i = start;
    let mut dots: usize = 0;
    while i < n
        invariant
            start < n,
            n == s@.len(),
            start <= i <= n,
            t == s@.subrange(start as int, n as int),
            dots == count_upto(t, '.', i - start),
            dots <= 1,
            forall|k: int| 0 <= k < i - start ==> is_digit(#[trigger] t[k]) || t[k] == '.',
        decreases n - i,
    {
        let c = s.get_char(i);
        proof {
            assert(t[i - start] == c);
            reveal_with_fuel(count_upto, 2);
        }
        if c == '.' {
            if dots == 1 {
                proof {
                    assert(count_upto(t, '.', i - start + 1) == 2);
                    lemma_count_upto_grows(t, '.', i - start + 1, t.len() as int);
                }
                return false;
            }
            dots = dots + 1;
        } else if !('0' <= c && c <= '9') {
            return false;
        }
        i = i + 1;
    }
    let first = s.get_char(start);
    let last = s.get_char(n - 1);
    proof {
        assert(t[0] == first);
        assert(t[t.len() - 1] == last);
    }
    '0' <= first && first <= '9' && '0' <= last && last <= '9'
}

/// Whether `s` is a printed `f64` (see `float_text`).
pub fn is_float_text(s: &str) -> (r: bool)
    ensures
        r == float_text(s@),
{
    proof {
        reveal_strlit("NaN");
        reveal_strlit("inf");
        reveal_strlit("-inf");
    }
    if str_eq(s, "NaN") || str_eq(s, "inf") || str_eq(s, "-inf") {
        return true;
    }
    if numeral_from(s, 0) {
        proof {
            assert(s@.subrange(0, s@.len() as int) =~= s@);
        }
        return true;
    }
    proof {
        assert(s@.subrange(0, s@.len() as int) =~= s@);
    }
    let n = s.unicode_len();
    if n > 1 && s.get_char(0) == '-' {
        numeral_from(s, 1)
    } else {
        false
    }
}

fn opt_bound_ok(v: &Option<String>) -> (r: bool)
    ensures
        r == bound_ok(*v),
{
    match v {
        Some(t) => is_float_text(t.as_str()),
        None => true,
    }
}

/// Whether the size bounds of `f` are printed `f64`s; the inline pipe lists write
/// them into their statements and take only such filters.
pub fn filter_bounds_ok(f: &PipeFilter) -> (r: bool)
    ensures
        r == bounds_ok(*f),
{
    opt_bound_ok(&f.od_min) && opt_bound_ok(&f.od_max) && opt_bound_ok(&f.wt_min) && opt_bound_ok(
        &f.wt_max,
    )
}

/// A search text is given and not empty.
pub open spec fn has_text(v: Option<String>) -> bool {
    v matches Some(t) && t@.len() > 0
}

/// A sub-type filter is given and does not name the table's own kind (which the
/// sub-type column never holds).
pub open spec fn type_filtered(k: PipeType, v: Option<String>) -> bool {
    v matches Some(t) && pipe_type_of(t@) != Some(k)
}

/// The conditions of the shared pipe list, in the order it writes them.
pub open spec fn pipe_clauses(k: PipeType, f: PipeFilter) -> Seq<Seq<char>> {
    seq![NOT_DELETED@] + clause_if(has_text(f.q), NUMBER_OR_BATCH_LIKE@) + clause_if(
        f.grade is Some,
        kind_grade_eq(k),
    ) + clause_if(type_filtered(k, f.pipe_type), kind_type_eq(k)) + clause_if(
        f.status is Some,
        STATUS_EQ@,
    ) + clause_if(f.od_min is Some, kind_od_min(k)) + clause_if(f.od_max is Some, kind_od_max(k))
        + clause_if(f.wt_min is Some, kind_wt_min(k)) + clause_if(f.wt_max is Some, kind_wt_max(k))
        + clause_if(f.location_id is Some, LOCATION_ID_EQ@) + clause_if(
        f.manufacturer is Some,
        MANUFACTURER_EQ@,
    ) + clause_if(f.heat_number is Some, HEAT_NUMBER_EQ@)
}

/// `%q%` twice, for the pipe number and the batch number, when a search text is given.
pub open spec fn pattern_params(q: Option<String>) -> Seq<SqlValue> {
    if has_text(q) {
        let p = seq!['%'] + q.unwrap()@ + seq!['%'];
        seq![SqlValue::Text(p), SqlValue::Text(p)]
    } else {
        Seq::empty()
    }
}

/// An optional integer, bound as its decimal text.
pub open spec fn decimal_param(v: Option<i64>) -> Seq<SqlValue> {
    match v {
        Some(n) => seq![SqlValue::Text(int_text(n as int))],
        None => Seq::empty(),
    }
}

/// The parameters of the shared pipe list, in placeholder order.
pub open spec fn pipe_params(k: PipeType, f: PipeFilter) -> Seq<SqlValue> {
    pattern_params(f.q) + string_param(f.grade) + (if type_filtered(k, f.pipe_type) {
        string_param(f.pipe_type)
    } else {
        Seq::empty()
    }) + string_param(f.status) + string_param(f.od_min) + string_param(f.od_max) + string_param(
        f.wt_min,
    ) + string_param(f.wt_max) + decimal_param(f.location_id) + string_param(f.manufacturer)
        + string_param(f.heat_number)
}

#[verifier::rlimit(40)]
fn pipe_conditions(t: &PipeTable, k: PipeType, f: &PipeFilter) -> (r: Conditions)
    requires
        table_of(*t, k),
        table_wf(*t),
    ensures
        clauses_view(r.clauses@) == pipe_clauses(k, *f),
        params_view(r.params@) == pipe_params(k, *f),
        r.wf(),
{
    proof {
        lemma_not_deleted();
        lemma_number_or_batch_like();
        lemma_status_eq();
        lemma_location_id_eq();
        lemma_manufacturer_eq();
        lemma_heat_number_eq();
    }
    let mut c = Conditions::new();
    c.push_plain(NOT_DELETED);
    let ghost c1 = clauses_view(c.clauses@);
    let ghost p1 = params_view(c.params@);
    proof {
        assert(c1 =~= seq![NOT_DELETED@]);
        assert(p1 =~= Seq::<SqlValue>::empty());
    }
    match &f.q {
        Some(q) => {
            if q.unicode_len() > 0 {
                let p = like_contains(q.as_str());
                let p2 = like_contains(q.as_str());
                c.push2(NUMBER_OR_BATCH_LIKE, SqlParam::Text(p), SqlParam::Text(p2));
            }
        },
        None => {},
    }
    let ghost c2 = clauses_view(c.clauses@);
    let ghost p2 = params_view(c.params@);
    proof {
        assert(c2 =~= c1 + clause_if(has_text(f.q), NUMBER_OR_BATCH_LIKE@));
        assert(p2 =~= p1 + pattern_params(f.q));
    }
    c.add_string(t.grade_eq, &f.grade);
    let ghost c3 = clauses_view(c.clauses@);
    let ghost p3 = params_view(c.params@);
    match &f.pipe_type {
        Some(pt) => {
            let is_class = match PipeType::from_pipe_type_str(pt.as_str()) {
                Some(kind) => kind == t.class,
                None => false,
            };
            if !is_class {
                c.push1(t.type_eq, SqlParam::Text(String::from_str(pt.as_str())));
            }
        },
        None => {},
    }
    let ghost c4 = clauses_view(c.clauses@);
    let ghost p4 = params_view(c.params@);
    proof {
        assert(c4 =~= c3 + clause_if(type_filtered(k, f.pipe_type), kind_type_eq(k)));
        assert(p4 =~= p3 + (if type_filtered(k, f.pipe_type) {
            string_param(f.pipe_type)
        } else {
            Seq::empty()
        }));
    }
    c.add_string(STATUS_EQ, &f.status);
    c.add_string(t.od_min, &f.od_min);
    c.add_string(t.od_max, &f.od_max);
    c.add_string(t.wt_min, &f.wt_min);
    c.add_string(t.wt_max, &f.wt_max);
    let ghost c5 = clauses_view(c.clauses@);
    let ghost p5 = params_view(c.params@);
    match f.location_id {
        Some(id) => {
            let mut text = String::new();
            push_i64(&mut text, id);
            proof {
                assert(text@ =~= int_text(id as int));
            }
            c.push1(LOCATION_ID_EQ, SqlParam::Text(text));
        },
        None => {},
    }
    proof {
        assert(clauses_view(c.clauses@) =~= c5 + clause_if(f.location_id is Some, LOCATION_ID_EQ@));
        assert(params_view(c.params@) =~= p5 + decimal_param(f.location_id));
    }
    c.add_string(MANUFACTURER_EQ, &f.manufacturer);
    c.add_string(HEAT_NUMBER_EQ, &f.heat_number);
    proof {
        assert(clauses_view(c.clauses@) =~= pipe_clauses(k, *f));
        assert(params_view(c.params@) =~= pipe_params(k, *f));
    }
    c
}

/// The ORDER BY column of a pipe list: the column of the requested key when the
/// table accepts it, else `created_at`.
pub open spec fn pipe_sort_column(k: PipeType, sort_by: Option<Seq<char>>) -> Seq<char> {
    lookup_column(sort_by, kind_sort_view(k), COL_CREATED_AT@)
}

/// ` ORDER BY col dir LIMIT ? OFFSET ?`.
pub open spec fn order_page_suffix(col: Seq<char>, order: SortOrder) -> Seq<char> {
    ORDER_BY@ + col + SPACE@ + order_text(order) + LIMIT_OFFSET@
}

proof fn lemma_sort_column_plain(t: PipeTable, c: Seq<char>)
    requires
        table_wf(t),
        is_listed_column(c, table_view(t.sort_keys@), COL_CREATED_AT@),
    ensures
        count_char(c, '?') == 0,
{
    lemma_col_created_at();
    if c != COL_CREATED_AT@ {
        let i = choose|i: int|
            0 <= i < table_view(t.sort_keys@).len() && c == (#[trigger] table_view(
                t.sort_keys@,
            )[i]).1;
        assert(table_view(t.sort_keys@)[i].1 == t.sort_keys@[i].1@);
    }
}

/// Builds ` ORDER BY col dir LIMIT ? OFFSET ?`.
fn order_page_text(col: &'static str, order: SortOrder) -> (r: String)
    requires
        count_char(col@, '?') == 0,
    ensures
        r@ == order_page_suffix(col@, order),
        count_char(r@, '?') == 2,
{
    proof {
        lemma_order_by();
        lemma_space();
        lemma_limit_offset();
        lemma_asc();
        lemma_desc();
        lemma_count_concat(ORDER_BY@, col@, '?');
        lemma_count_concat(ORDER_BY@ + col@, SPACE@, '?');
        lemma_count_concat(ORDER_BY@ + col@ + SPACE@, order_text(order), '?');
        lemma_count_concat(ORDER_BY@ + col@ + SPACE@ + order_text(order), LIMIT_OFFSET@, '?');
    }
    let mut r = String::from_str(ORDER_BY);
    r.append(col);
    r.append(SPACE);
    r.append(order.sql());
    r.append(LIMIT_OFFSET);
    r
}

impl<P> GenericPipeRepo<P> {
    /// The queries of the shared pipe list for pipes of kind `kind`: the rows not
    /// deleted, narrowed by each given filter (a non-empty search text matches the
    /// pipe number or the batch number; a sub-type naming the kind itself filters
    /// nothing), ordered by the requested column (or `created_at`) in `order`, one
    /// page of `page_size` rows after `offset` rows.  Every filter value is bound as
    /// text.
    pub fn list_query(
        kind: PipeType,
        filter: &PipeFilter,
        sort_by: Option<&str>,
        order: SortOrder,
        page_size: i64,
        offset: i64,
    ) -> (r: ListQuery)
        ensures
            r.count@.sql == kind_count_base(kind) + conditions_text(pipe_clauses(kind, *filter), ""@),
            r.count@.params == pipe_params(kind, *filter),
            r.list@.sql == kind_list_base(kind) + conditions_text(pipe_clauses(kind, *filter), ""@)
                + order_page_suffix(pipe_sort_column(kind, key_view(sort_by)), order),
            r.list@.params == pipe_params(kind, *filter) + seq![
                SqlValue::Int(page_size),
                SqlValue::Int(offset),
            ],
            well_bound(r.count@),
            well_bound(r.list@),
    {
        let t = pipe_table(kind);
        let a = pipe_conditions(&t, kind, filter);
        let b = pipe_conditions(&t, kind, filter);
        let col = pick_column(sort_by, &t.sort_keys, COL_CREATED_AT);
        proof {
            lemma_sort_column_plain(t, col@);
            lemma_no_suffix();
            reveal_strlit("");
        }
        let suffix = order_page_text(col, order);
        let count = assemble(t.count_base, "", a, NO_SUFFIX, Vec::new());
        let mut tail: Vec<SqlParam> = Vec::new();
        tail.push(SqlParam::Int(page_size));
        tail.push(SqlParam::Int(offset));
        let list = assemble(t.list_base, "", b, suffix.as_str(), tail);
        proof {
            assert(NO_SUFFIX@.len() == 0);
            assert(count@.sql =~= kind_count_base(kind) + conditions_text(pipe_clauses(kind, *filter), ""@));
            assert(count@.params =~= pipe_params(kind, *filter));
            assert(params_view(tail@) =~= seq![SqlValue::Int(page_size), SqlValue::Int(offset)]);
        }
        ListQuery { count, list }
    }

    /// The search of kind `kind`: the fifty newest pipes not deleted whose pipe
    /// number or batch number contains `query`.
    pub fn search_query(kind: PipeType, query: &str) -> (r: SqlQuery)
        ensures
            r@.sql == kind_search(kind),
            r@.params == seq![
                SqlValue::Text(seq!['%'] + query@ + seq!['%']),
                SqlValue::Text(seq!['%'] + query@ + seq!['%']),
            ],
            well_bound(r@),
    {
        let t = pipe_table(kind);
        let mut params: Vec<SqlParam> = Vec::new();
        params.push(SqlParam::Text(like_contains(query)));
        params.push(SqlParam::Text(like_contains(query)));
        proof {
            assert(params_view(params@) =~= seq![
                SqlValue::Text(seq!['%'] + query@ + seq!['%']),
                SqlValue::Text(seq!['%'] + query@ + seq!['%']),
            ]);
        }
        SqlQuery { sql: String::from_str(t.search), params }
    }
}

/// `n` placeholders separated by commas.
pub open spec fn id_marks(n: nat) -> Seq<char>
    decreases n,
{
    if n == 0 {
        Seq::empty()
    } else if n == 1 {
        seq!['?']
    } else {
        id_marks((n - 1) as nat) + seq![',', '?']
    }
}

proof fn lemma_id_marks_count(n: nat)
    ensures
        count_char(id_marks(n), '?') == n,
    decreases n,
{
    reveal_with_fuel(crate::text::count_upto, 3);
    if n == 1 {
        assert(count_char(seq!['?'], '?') == 1);
    } else if n > 1 {
        lemma_id_marks_count((n - 1) as nat);
        lemma_count_concat(id_marks((n - 1) as nat), seq![',', '?'], '?');
        assert(count_char(seq![',', '?'], '?') == 1);
    } else {
        assert(count_char(Seq::<char>::empty(), '?') == 0);
    }
}

/// The start of the lookup by ids of a kind's table.
pub open spec fn kind_by_ids(k: PipeType) -> Seq<char> {
    match k {
        PipeType::Seamless => SEAMLESS_BY_IDS@,
        PipeType::Screen => SCREEN_BY_IDS@,
    }
}

/// The ids as bound parameters.
pub open spec fn id_params(ids: Seq<i64>) -> Seq<SqlValue> {
    ids.map_values(|id: i64| SqlValue::Int(id))
}

impl<P> GenericPipeRepo<P> {
    /// The lookup of the pipes of kind `kind` with the given ids that are not
    /// deleted; no statement at all for an empty list (whose answer is empty).
    pub fn find_by_ids_query(kind: PipeType, ids: &Vec<i64>) -> (r: Option<SqlQuery>)
        ensures
            ids@.len() == 0 ==> r is None,
            ids@.len() > 0 ==> (r matches Some(q) && q@.sql == kind_by_ids(kind) + id_marks(
                ids@.len(),
            ) + BY_IDS_END@ && q@.params == id_params(ids@) && well_bound(q@)),
    {
        if ids.len() == 0 {
            return None;
        }
        let head = match kind {
            PipeType::Seamless => SEAMLESS_BY_IDS,
            PipeType::Screen => SCREEN_BY_IDS,
        };
        let mut sql = String::from_str(head);
        let mut params: Vec<SqlParam> = Vec::new();
        let ghost start = sql@;
        let mut i: usize = 0;
        while i < ids.len()
            invariant
                i <= ids.len(),
                start == kind_by_ids(kind),
                sql@ == start + id_marks(i as nat),
                params_view(params@) == id_params(ids@.take(i as int)),
            decreases ids.len() - i,
        {
            if i > 0 {
                push_char(&mut sql, ',');
            }
            push_char(&mut sql, '?');
            let ghost before = params@;
            params.push(SqlParam::Int(ids[i]));
            proof {
                assert(params@ =~= before.push(SqlParam::Int(ids@[i as int])));
                assert(params_view(params@) =~= params_view(before).push(SqlValue::Int(ids@[i as int])));
                assert(ids@.take(i as int + 1) =~= ids@.take(i as int).push(ids@[i as int]));
            }
            proof {
                if i == 0 {
                    assert(sql@ =~= start + id_marks(1));
                } else {
                    assert(sql@ =~= start + id_marks((i + 1) as nat));
                }
                assert(params_view(params@) =~= id_params(ids@.take(i as int + 1)));
            }
            i = i + 1;
        }
        let ghost marks = sql@;
        sql.append(BY_IDS_END);
        proof {
            assert(ids@.take(ids@.len() as int) =~= ids@);
            lemma_id_marks_count(ids@.len());
            lemma_seamless_by_ids();
            lemma_screen_by_ids();
            lemma_by_ids_end();
            lemma_count_concat(start, id_marks(ids@.len()), '?');
            lemma_count_concat(marks, BY_IDS_END@, '?');
            assert(params_view(params@).len() == ids@.len());
        }
        Some(SqlQuery { sql, params })
    }
}

// ---------------------------------------------------------------------------
// The pipe store: statements with numbered placeholders
// ---------------------------------------------------------------------------

/// The columns the pipe store may sort by.
pub open spec fn store_sort_columns() -> Seq<Seq<char>> {
    seq![
        "created_at"@,
        "pipe_number"@,
        "grade"@,
        "status"@,
        "od"@,
        "wt"@,
        "length"@,
        "weight"@,
    ]
}

/// The sort column of the pipe store: the requested column when it is on the
/// list, else `created_at`.
pub open spec fn store_sort_column(sort_by: Seq<char>) -> Seq<char> {
    if store_sort_columns().contains(sort_by) {
        sort_by
    } else {
        "created_at"@
    }
}

/// The requested sort column when the pipe store accepts it, else `created_at`.
pub fn validate_sort_col(sort_by: &str) -> (r: &'static str)
    ensures
        r@ == store_sort_column(sort_by@),
{
    let allowed: Vec<&'static str> = vec![
        "created_at",
        "pipe_number",
        "grade",
        "status",
        "od",
        "wt",
        "length",
        "weight",
    ];
    proof {
        assert(allowed@.map_values(|c: &'static str| c@) =~= store_sort_columns());
    }
    let r = crate::sorting::pick_listed(sort_by, &allowed, "created_at");
    proof {
        let v = allowed@.map_values(|c: &'static str| c@);
        if store_sort_columns().contains(sort_by@) {
            let i = choose|i: int| 0 <= i < v.len() && v[i] == sort_by@;
            assert(allowed@[i]@ == sort_by@);
        } else {
            assert forall|i: int| 0 <= i < allowed@.len() implies (#[trigger] allowed@[i])@ != sort_by@ by {
                assert(v[i] == allowed@[i]@);
            }
        }
    }
    r
}

/// The direction a request asks for.
pub open spec fn requested_order(s: Seq<char>) -> SortOrder {
    if crate::paging::is_asc_text(s) {
        SortOrder::Asc
    } else {
        SortOrder::Desc
    }
}

/// The rows before page `page` of `page_size` rows, as the store computes it.
pub open spec fn store_offset(page: i64, page_size: i64) -> int {
    (page - 1) * page_size
}

/// The store's page statement of a kind's table, up to its ordering.
pub open spec fn kind_numbered_list(k: PipeType) -> Seq<char> {
    match k {
        PipeType::Seamless => SEAMLESS_NUMBERED_LIST@,
        PipeType::Screen => SCREEN_NUMBERED_LIST@,
    }
}

/// The store's counting statement of a kind's table.
pub open spec fn kind_numbered_count(k: PipeType) -> Seq<char> {
    match k {
        PipeType::Seamless => SEAMLESS_NUMBERED_COUNT@,
        PipeType::Screen => SCREEN_NUMBERED_COUNT@,
    }
}

/// One page of the pipe store's list of kind `kind`: each of grade, status and a
/// number fragment filters only when given (the statement tests each against
/// NULL), ordered by the accepted column in the requested direction.  The
/// parameters are the three filters (NULL when absent), the page size and the
/// offset `(page - 1) * page_size`.
pub fn pipe_store_list_query(
    kind: PipeType,
    grade: Option<&str>,
    status: Option<&str>,
    search: Option<&str>,
    page: i64,
    page_size: i64,
    sort_by: &str,
    sort_order: &str,
) -> (r: SqlQuery)
    requires
        i64::MIN <= store_offset(page, page_size) <= i64::MAX,
        page > i64::MIN,
    ensures
        r@.sql == kind_numbered_list(kind) + store_sort_column(sort_by@) + SPACE@ + order_text(
            requested_order(sort_order@),
        ) + NUMBERED_PAGE@,
        r@.params == seq![
            nullable_text(grade),
            nullable_text(status),
            nullable_text(search),
            SqlValue::Int(page_size),
            SqlValue::Int(store_offset(page, page_size) as i64),
        ],
{
    let col = validate_sort_col(sort_by);
    let order = SortOrder::from_request(sort_order);
    let offset = (page - 1) * page_size;
    let head = match kind {
        PipeType::Seamless => SEAMLESS_NUMBERED_LIST,
        PipeType::Screen => SCREEN_NUMBERED_LIST,
    };
    let mut sql = String::from_str(head);
    sql.append(col);
    sql.append(SPACE);
    sql.append(order.sql());
    sql.append(NUMBERED_PAGE);
    let mut params: Vec<SqlParam> = Vec::new();
    params.push(nullable_param(grade));
    params.push(nullable_param(status));
    params.push(nullable_param(search));
    params.push(SqlParam::Int(page_size));
    params.push(SqlParam::Int(offset));
    proof {
        assert(params_view(params@) =~= seq![
            nullable_text(grade),
            nullable_text(status),
            nullable_text(search),
            SqlValue::Int(page_size),
            SqlValue::Int(store_offset(page, page_size) as i64),
        ]);
    }
    SqlQuery { sql, params }
}

/// The pipe store's count of kind `kind` under the same three optional filters.
pub fn pipe_store_count_query(
    kind: PipeType,
    grade: Option<&str>,
    status: Option<&str>,
    search: Option<&str>,
) -> (r: SqlQuery)
    ensures
        r@.sql == kind_numbered_count(kind),
        r@.params == seq![nullable_text(grade), nullable_text(status), nullable_text(search)],
{
    let sql = match kind {
        PipeType::Seamless => SEAMLESS_NUMBERED_COUNT,
        PipeType::Screen => SCREEN_NUMBERED_COUNT,
    };
    let mut params: Vec<SqlParam> = Vec::new();
    params.push(nullable_param(grade));
    params.push(nullable_param(status));
    params.push(nullable_param(search));
    proof {
        assert(params_view(params@) =~= seq![
            nullable_text(grade),
            nullable_text(status),
            nullable_text(search),
        ]);
    }
    SqlQuery { sql: String::from_str(sql), params }
}

/// A pipe never changes to the status it already has (a shipped pipe cannot be
/// shipped again, a stocked one cannot be stocked again), and it may always move
/// between the two different statuses; a requested change from a status name to
/// itself is refused with the transition error, whatever the name.
pub proof fn lemma_status_change_needs_a_new_status(a: PipeStatus, b: PipeStatus, t: Seq<char>)
    ensures
        !may_transition(a, a),
        a != b ==> may_transition(a, b),
        pipe_status_of(t) is Some ==> transition_outcome(t, t) == Err::<(), AppErrorView>(
            AppErrorView::Validation(invalid_transition_message(t, t)),
        ),
{
}

} // verus!
