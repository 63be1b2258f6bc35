//! The fixed text of the newer repositories' queries, each with the number of
//! placeholders it holds.
use vstd::prelude::*;
use crate::text::{count_char, count_upto};

verus! {

/// Counts seamless pipes; the conditions follow.
pub const SEAMLESS_COUNT_BASE: &'static str = "SELECT COUNT(*) as cnt FROM seamless_pipes WHERE ";

/// `SEAMLESS_COUNT_BASE` holds 0 placeholders.
pub proof fn lemma_seamless_count_base()
    ensures
        count_char(SEAMLESS_COUNT_BASE@, '?') == 0,
{
    reveal_strlit("SELECT COUNT(*) as cnt FROM seamless_pipes WHERE ");
    reveal_with_fuel(count_upto, 41);
    let s = SEAMLESS_COUNT_BASE@;
    assert(count_upto(s, '?', 40) == 0);
    assert(s.len() == 49);
}

/// Selects seamless pipes; the conditions follow.
pub const SEAMLESS_LIST_BASE: &'static str = "SELECT * FROM seamless_pipes WHERE ";

/// `SEAMLESS_LIST_BASE` holds 0 placeholders.
pub proof fn lemma_seamless_list_base()
    ensures
        count_char(SEAMLESS_LIST_BASE@, '?') == 0,
{
    reveal_strlit("SELECT * FROM seamless_pipes WHERE ");
    reveal_with_fuel(count_upto, 41);
    let s = SEAMLESS_LIST_BASE@;
    assert(s.len() == 35);
}

/// Counts screen pipes; the conditions follow.
pub const SCREEN_COUNT_BASE: &'static str = "SELECT COUNT(*) as cnt FROM screen_pipes WHERE ";

/// `SCREEN_COUNT_BASE` holds 0 placeholders.
pub proof fn lemma_screen_count_base()
    ensures
        count_char(SCREEN_COUNT_BASE@, '?') == 0,
{
    reveal_strlit("SELECT COUNT(*) as cnt FROM screen_pipes WHERE ");
    reveal_with_fuel(count_upto, 41);
    let s = SCREEN_COUNT_BASE@;
    assert(count_upto(s, '?', 40) == 0);
    assert(s.len() == 47);
}

/// Selects screen pipes; the conditions follow.
pub const SCREEN_LIST_BASE: &'static str = "SELECT * FROM screen_pipes WHERE ";

/// `SCREEN_LIST_BASE` holds 0 placeholders.
pub proof fn lemma_screen_list_base()
    ensures
        count_char(SCREEN_LIST_BASE@, '?') == 0,
{
    reveal_strlit("SELECT * FROM screen_pipes WHERE ");
    reveal_with_fuel(count_upto, 41);
    let s = SCREEN_LIST_BASE@;
    assert(s.len() == 33);
}

/// The fifty newest seamless pipes whose number or batch matches.
pub const SEAMLESS_SEARCH: &'static str = "SELECT * FROM seamless_pipes WHERE deleted_at IS NULL AND (pipe_number LIKE ? OR batch_number LIKE ?) ORDER BY created_at DESC LIMIT 50";

/// `SEAMLESS_SEARCH` holds 2 placeholders.
pub proof fn lemma_seamless_search()
    ensures
        count_char(SEAMLESS_SEARCH@, '?') == 2,
{
    reveal_strlit("SELECT * FROM seamless_pipes WHERE deleted_at IS NULL AND (pipe_number LIKE ? OR batch_number LIKE ?) ORDER BY created_at DESC LIMIT 50");
    reveal_with_fuel(count_upto, 41);
    let s = SEAMLESS_SEARCH@;
    assert(count_upto(s, '?', 40) == 0);
    assert(count_upto(s, '?', 80) == 1);
    assert(count_upto(s, '?', 120) == 2);
    assert(s.len() == 135);
}

/// The fifty newest screen pipes whose number or batch matches.
pub const SCREEN_SEARCH: &'static str = "SELECT * FROM screen_pipes WHERE deleted_at IS NULL AND (pipe_number LIKE ? OR batch_number LIKE ?) ORDER BY created_at DESC LIMIT 50";

/// `SCREEN_SEARCH` holds 2 placeholders.
pub proof fn lemma_screen_search()
    ensures
        count_char(SCREEN_SEARCH@, '?') == 2,
{
    reveal_strlit("SELECT * FROM screen_pipes WHERE deleted_at IS NULL AND (pipe_number LIKE ? OR batch_number LIKE ?) ORDER BY created_at DESC LIMIT 50");
    reveal_with_fuel(count_upto, 41);
    let s = SCREEN_SEARCH@;
    assert(count_upto(s, '?', 40) == 0);
    assert(count_upto(s, '?', 80) == 1);
    assert(count_upto(s, '?', 120) == 2);
    assert(s.len() == 133);
}

/// Selects the seamless pipes with the listed ids; the placeholders follow.
pub const SEAMLESS_BY_IDS: &'static str = "SELECT * FROM seamless_pipes WHERE id IN (";

/// `SEAMLESS_BY_IDS` holds 0 placeholders.
pub proof fn lemma_seamless_by_ids()
    ensures
        count_char(SEAMLESS_BY_IDS@, '?') == 0,
{
    reveal_strlit("SELECT * FROM seamless_pipes WHERE id IN (");
    reveal_with_fuel(count_upto, 41);
    let s = SEAMLESS_BY_IDS@;
    assert(count_upto(s, '?', 40) == 0);
    assert(s.len() == 42);
}

/// Selects the screen pipes with the listed ids; the placeholders follow.
pub const SCREEN_BY_IDS: &'static str = "SELECT * FROM screen_pipes WHERE id IN (";

/// `SCREEN_BY_IDS` holds 0 placeholders.
pub proof fn lemma_screen_by_ids()
    ensures
        count_char(SCREEN_BY_IDS@, '?') == 0,
{
    reveal_strlit("SELECT * FROM screen_pipes WHERE id IN (");
    reveal_with_fuel(count_upto, 41);
    let s = SCREEN_BY_IDS@;
    assert(s.len() == 40);
}

/// Closes the id list of a lookup by ids.
pub const BY_IDS_END: &'static str = ") AND deleted_at IS NULL";

/// `BY_IDS_END` holds 0 placeholders.
pub proof fn lemma_by_ids_end()
    ensures
        count_char(BY_IDS_END@, '?') == 0,
{
    reveal_strlit(") AND deleted_at IS NULL");
    reveal_with_fuel(count_upto, 41);
    let s = BY_IDS_END@;
    assert(s.len() == 24);
}

/// Rows not soft-deleted.
pub const NOT_DELETED: &'static str = "deleted_at IS NULL";

/// `NOT_DELETED` holds 0 placeholders.
pub proof fn lemma_not_deleted()
    ensures
        count_char(NOT_DELETED@, '?') == 0,
{
    reveal_strlit("deleted_at IS NULL");
    reveal_with_fuel(count_upto, 41);
    let s = NOT_DELETED@;
    assert(s.len() == 18);
}

/// Pipe number or batch number matches a pattern.
pub const NUMBER_OR_BATCH_LIKE: &'static str = "(pipe_number LIKE ? OR batch_number LIKE ?)";

/// `NUMBER_OR_BATCH_LIKE` holds 2 placeholders.
pub proof fn lemma_number_or_batch_like()
    ensures
        count_char(NUMBER_OR_BATCH_LIKE@, '?') == 2,
{
    reveal_strlit("(pipe_number LIKE ? OR batch_number LIKE ?)");
    reveal_with_fuel(count_upto, 41);
    let s = NUMBER_OR_BATCH_LIKE@;
    assert(count_upto(s, '?', 40) == 1);
    assert(s.len() == 43);
}

/// Filter condition `grade = ?`.
pub const GRADE_EQ: &'static str = "grade = ?";

/// `GRADE_EQ` holds 1 placeholder.
pub proof fn lemma_grade_eq()
    ensures
        count_char(GRADE_EQ@, '?') == 1,
{
    reveal_strlit("grade = ?");
    reveal_with_fuel(count_upto, 41);
    let s = GRADE_EQ@;
    assert(s.len() == 9);
}

/// Filter condition `base_grade = ?`.
pub const BASE_GRADE_EQ: &'static str = "base_grade = ?";

/// `BASE_GRADE_EQ` holds 1 placeholder.
pub proof fn lemma_base_grade_eq()
    ensures
        count_char(BASE_GRADE_EQ@, '?') == 1,
{
    reveal_strlit("base_grade = ?");
    reveal_with_fuel(count_upto, 41);
    let s = BASE_GRADE_EQ@;
    assert(s.len() == 14);
}

/// Filter condition `pipe_type = ?`.
pub const PIPE_TYPE_EQ: &'static str = "pipe_type = ?";

/// `PIPE_TYPE_EQ` holds 1 placeholder.
pub proof fn lemma_pipe_type_eq()
    ensures
        count_char(PIPE_TYPE_EQ@, '?') == 1,
{
    reveal_strlit("pipe_type = ?");
    reveal_with_fuel(count_upto, 41);
    let s = PIPE_TYPE_EQ@;
    assert(s.len() == 13);
}

/// Filter condition `screen_type = ?`.
pub const SCREEN_TYPE_EQ: &'static str = "screen_type = ?";

/// `SCREEN_TYPE_EQ` holds 1 placeholder.
pub proof fn lemma_screen_type_eq()
    ensures
        count_char(SCREEN_TYPE_EQ@, '?') == 1,
{
    reveal_strlit("screen_type = ?");
    reveal_with_fuel(count_upto, 41);
    let s = SCREEN_TYPE_EQ@;
    assert(s.len() == 15);
}

/// Filter condition `od >= ?`.
pub const OD_MIN: &'static str = "od >= ?";

/// `OD_MIN` holds 1 placeholder.
pub proof fn lemma_od_min()
    ensures
        count_char(OD_MIN@, '?') == 1,
{
    reveal_strlit("od >= ?");
    reveal_with_fuel(count_upto, 41);
    let s = OD_MIN@;
    assert(s.len() == 7);
}

/// Filter condition `od <= ?`.
pub const OD_MAX: &'static str = "od <= ?";

/// `OD_MAX` holds 1 placeholder.
pub proof fn lemma_od_max()
    ensures
        count_char(OD_MAX@, '?') == 1,
{
    reveal_strlit("od <= ?");
    reveal_with_fuel(count_upto, 41);
    let s = OD_MAX@;
    assert(s.len() == 7);
}

/// Filter condition `wt >= ?`.
pub const WT_MIN: &'static str = "wt >= ?";

/// `WT_MIN` holds 1 placeholder.
pub proof fn lemma_wt_min()
    ensures
        count_char(WT_MIN@, '?') == 1,
{
    reveal_strlit("wt >= ?");
    reveal_with_fuel(count_upto, 41);
    let s = WT_MIN@;
    assert(s.len() == 7);
}

/// Filter condition `wt <= ?`.
pub const WT_MAX: &'static str = "wt <= ?";

/// `WT_MAX` holds 1 placeholder.
pub proof fn lemma_wt_max()
    ensures
        count_char(WT_MAX@, '?') == 1,
{
    reveal_strlit("wt <= ?");
    reveal_with_fuel(count_upto, 41);
    let s = WT_MAX@;
    assert(s.len() == 7);
}

/// Filter condition `base_od >= ?`.
pub const BASE_OD_MIN: &'static str = "base_od >= ?";

/// `BASE_OD_MIN` holds 1 placeholder.
pub proof fn lemma_base_od_min()
    ensures
        count_char(BASE_OD_MIN@, '?') == 1,
{
    reveal_strlit("base_od >= ?");
    reveal_with_fuel(count_upto, 41);
    let s = BASE_OD_MIN@;
    assert(s.len() == 12);
}

/// Filter condition `base_od <= ?`.
pub const BASE_OD_MAX: &'static str = "base_od <= ?";

/// `BASE_OD_MAX` holds 1 placeholder.
pub proof fn lemma_base_od_max()
    ensures
        count_char(BASE_OD_MAX@, '?') == 1,
{
    reveal_strlit("base_od <= ?");
    reveal_with_fuel(count_upto, 41);
    let s = BASE_OD_MAX@;
    assert(s.len() == 12);
}

/// Filter condition `base_wt >= ?`.
pub const BASE_WT_MIN: &'static str = "base_wt >= ?";

/// `BASE_WT_MIN` holds 1 placeholder.
pub proof fn lemma_base_wt_min()
    ensures
        count_char(BASE_WT_MIN@, '?') == 1,
{
    reveal_strlit("base_wt >= ?");
    reveal_with_fuel(count_upto, 41);
    let s = BASE_WT_MIN@;
    assert(s.len() == 12);
}

/// Filter condition `base_wt <= ?`.
pub const BASE_WT_MAX: &'static str = "base_wt <= ?";

/// `BASE_WT_MAX` holds 1 placeholder.
pub proof fn lemma_base_wt_max()
    ensures
        count_char(BASE_WT_MAX@, '?') == 1,
{
    reveal_strlit("base_wt <= ?");
    reveal_with_fuel(count_upto, 41);
    let s = BASE_WT_MAX@;
    assert(s.len() == 12);
}

/// Filter condition `manufacturer = ?`.
pub const MANUFACTURER_EQ: &'static str = "manufacturer = ?";

/// `MANUFACTURER_EQ` holds 1 placeholder.
pub proof fn lemma_manufacturer_eq()
    ensures
        count_char(MANUFACTURER_EQ@, '?') == 1,
{
    reveal_strlit("manufacturer = ?");
    reveal_with_fuel(count_upto, 41);
    let s = MANUFACTURER_EQ@;
    assert(s.len() == 16);
}

/// Filter condition `heat_number = ?`.
pub const HEAT_NUMBER_EQ: &'static str = "heat_number = ?";

/// `HEAT_NUMBER_EQ` holds 1 placeholder.
pub proof fn lemma_heat_number_eq()
    ensures
        count_char(HEAT_NUMBER_EQ@, '?') == 1,
{
    reveal_strlit("heat_number = ?");
    reveal_with_fuel(count_upto, 41);
    let s = HEAT_NUMBER_EQ@;
    assert(s.len() == 15);
}

/// Starts an ordering.
pub const ORDER_BY: &'static str = " ORDER BY ";

/// `ORDER_BY` holds 0 placeholders.
pub proof fn lemma_order_by()
    ensures
        count_char(ORDER_BY@, '?') == 0,
{
    reveal_strlit(" ORDER BY ");
    reveal_with_fuel(count_upto, 41);
    let s = ORDER_BY@;
    assert(s.len() == 10);
}

/// One space.
pub const SPACE: &'static str = " ";

/// `SPACE` holds 0 placeholders.
pub proof fn lemma_space()
    ensures
        count_char(SPACE@, '?') == 0,
{
    reveal_strlit(" ");
    reveal_with_fuel(count_upto, 41);
    let s = SPACE@;
    assert(s.len() == 1);
}

/// One page: its size, then the rows skipped.
pub const LIMIT_OFFSET: &'static str = " LIMIT ? OFFSET ?";

/// `LIMIT_OFFSET` holds 2 placeholders.
pub proof fn lemma_limit_offset()
    ensures
        count_char(LIMIT_OFFSET@, '?') == 2,
{
    reveal_strlit(" LIMIT ? OFFSET ?");
    reveal_with_fuel(count_upto, 41);
    let s = LIMIT_OFFSET@;
    assert(s.len() == 17);
}

/// Ascending order.
pub const ASC: &'static str = "ASC";

/// `ASC` holds 0 placeholders.
pub proof fn lemma_asc()
    ensures
        count_char(ASC@, '?') == 0,
{
    reveal_strlit("ASC");
    reveal_with_fuel(count_upto, 41);
    let s = ASC@;
    assert(s.len() == 3);
}

/// Descending order.
pub const DESC: &'static str = "DESC";

/// `DESC` holds 0 placeholders.
pub proof fn lemma_desc()
    ensures
        count_char(DESC@, '?') == 0,
{
    reveal_strlit("DESC");
    reveal_with_fuel(count_upto, 41);
    let s = DESC@;
    assert(s.len() == 4);
}

/// Sort column `created_at`.
pub const COL_CREATED_AT: &'static str = "created_at";

/// `COL_CREATED_AT` holds 0 placeholders.
pub proof fn lemma_col_created_at()
    ensures
        count_char(COL_CREATED_AT@, '?') == 0,
{
    reveal_strlit("created_at");
    reveal_with_fuel(count_upto, 41);
    let s = COL_CREATED_AT@;
    assert(s.len() == 10);
}

/// Sort column `pipe_number`.
pub const COL_PIPE_NUMBER: &'static str = "pipe_number";

/// `COL_PIPE_NUMBER` holds 0 placeholders.
pub proof fn lemma_col_pipe_number()
    ensures
        count_char(COL_PIPE_NUMBER@, '?') == 0,
{
    reveal_strlit("pipe_number");
    reveal_with_fuel(count_upto, 41);
    let s = COL_PIPE_NUMBER@;
    assert(s.len() == 11);
}

/// Sort column `grade`.
pub const COL_GRADE: &'static str = "grade";

/// `COL_GRADE` holds 0 placeholders.
pub proof fn lemma_col_grade()
    ensures
        count_char(COL_GRADE@, '?') == 0,
{
    reveal_strlit("grade");
    reveal_with_fuel(count_upto, 41);
    let s = COL_GRADE@;
    assert(s.len() == 5);
}

/// Sort column `od`.
pub const COL_OD: &'static str = "od";

/// `COL_OD` holds 0 placeholders.
pub proof fn lemma_col_od()
    ensures
        count_char(COL_OD@, '?') == 0,
{
    reveal_strlit("od");
    reveal_with_fuel(count_upto, 41);
    let s = COL_OD@;
    assert(s.len() == 2);
}

/// Sort column `wt`.
pub const COL_WT: &'static str = "wt";

/// `COL_WT` holds 0 placeholders.
pub proof fn lemma_col_wt()
    ensures
        count_char(COL_WT@, '?') == 0,
{
    reveal_strlit("wt");
    reveal_with_fuel(count_upto, 41);
    let s = COL_WT@;
    assert(s.len() == 2);
}

/// Sort column `status`.
pub const COL_STATUS: &'static str = "status";

/// `COL_STATUS` holds 0 placeholders.
pub proof fn lemma_col_status()
    ensures
        count_char(COL_STATUS@, '?') == 0,
{
    reveal_strlit("status");
    reveal_with_fuel(count_upto, 41);
    let s = COL_STATUS@;
    assert(s.len() == 6);
}

/// Sort column `manufacturer`.
pub const COL_MANUFACTURER: &'static str = "manufacturer";

/// `COL_MANUFACTURER` holds 0 placeholders.
pub proof fn lemma_col_manufacturer()
    ensures
        count_char(COL_MANUFACTURER@, '?') == 0,
{
    reveal_strlit("manufacturer");
    reveal_with_fuel(count_upto, 41);
    let s = COL_MANUFACTURER@;
    assert(s.len() == 12);
}

/// Sort column `production_date`.
pub const COL_PRODUCTION_DATE: &'static str = "production_date";

/// `COL_PRODUCTION_DATE` holds 0 placeholders.
pub proof fn lemma_col_production_date()
    ensures
        count_char(COL_PRODUCTION_DATE@, '?') == 0,
{
    reveal_strlit("production_date");
    reveal_with_fuel(count_upto, 41);
    let s = COL_PRODUCTION_DATE@;
    assert(s.len() == 15);
}

/// Sort column `base_grade`.
pub const COL_BASE_GRADE: &'static str = "base_grade";

/// `COL_BASE_GRADE` holds 0 placeholders.
pub proof fn lemma_col_base_grade()
    ensures
        count_char(COL_BASE_GRADE@, '?') == 0,
{
    reveal_strlit("base_grade");
    reveal_with_fuel(count_upto, 41);
    let s = COL_BASE_GRADE@;
    assert(s.len() == 10);
}

/// Sort column `base_od`.
pub const COL_BASE_OD: &'static str = "base_od";

/// `COL_BASE_OD` holds 0 placeholders.
pub proof fn lemma_col_base_od()
    ensures
        count_char(COL_BASE_OD@, '?') == 0,
{
    reveal_strlit("base_od");
    reveal_with_fuel(count_upto, 41);
    let s = COL_BASE_OD@;
    assert(s.len() == 7);
}

/// Sort column `base_wt`.
pub const COL_BASE_WT: &'static str = "base_wt";

/// `COL_BASE_WT` holds 0 placeholders.
pub proof fn lemma_col_base_wt()
    ensures
        count_char(COL_BASE_WT@, '?') == 0,
{
    reveal_strlit("base_wt");
    reveal_with_fuel(count_upto, 41);
    let s = COL_BASE_WT@;
    assert(s.len() == 7);
}

/// Selects the columns of seamless pipes; the conditions follow.
pub const SEAMLESS_ROWS_HEAD: &'static str = "SELECT id, pipe_number, batch_number, pipe_type, grade, od, wt, length, weight_per_unit, end_type, coupling_type, coupling_od, coupling_length, heat_number, serial_number, manufacturer, production_date, cert_number, location_id, status, notes, created_at, updated_at, deleted_at FROM seamless_pipes WHERE ";

/// Selects the columns of screen pipes; the conditions follow.
pub const SCREEN_ROWS_HEAD: &'static str = "SELECT id, pipe_number, batch_number, screen_type, slot_size, filtration_grade, base_od, base_wt, base_grade, base_end_type, length, weight_per_unit, heat_number, serial_number, manufacturer, production_date, cert_number, location_id, status, notes, created_at, updated_at, deleted_at FROM screen_pipes WHERE ";

/// Ends an update of one seamless pipe by id and returns its columns.
pub const SEAMLESS_UPDATE_TAIL: &'static str = " WHERE id = ? AND deleted_at IS NULL RETURNING id, pipe_number, batch_number, pipe_type, grade, od, wt, length, weight_per_unit, end_type, coupling_type, coupling_od, coupling_length, heat_number, serial_number, manufacturer, production_date, cert_number, location_id, status, notes, created_at, updated_at, deleted_at";

/// Ends an update of one screen pipe by id and returns its columns.
pub const SCREEN_UPDATE_TAIL: &'static str = " WHERE id = ? AND deleted_at IS NULL RETURNING id, pipe_number, batch_number, screen_type, slot_size, filtration_grade, base_od, base_wt, base_grade, base_end_type, length, weight_per_unit, heat_number, serial_number, manufacturer, production_date, cert_number, location_id, status, notes, created_at, updated_at, deleted_at";

/// Starts an update of a seamless pipe.
pub const SEAMLESS_UPDATE_HEAD: &'static str = "UPDATE seamless_pipes SET updated_at = datetime('now')";

/// Starts an update of a screen pipe.
pub const SCREEN_UPDATE_HEAD: &'static str = "UPDATE screen_pipes SET updated_at = datetime('now')";

/// The fifty newest seamless pipes whose number or batch matches, with their columns.
pub const SEAMLESS_ROWS_SEARCH: &'static str = "SELECT id, pipe_number, batch_number, pipe_type, grade, od, wt, length, weight_per_unit, end_type, coupling_type, coupling_od, coupling_length, heat_number, serial_number, manufacturer, production_date, cert_number, location_id, status, notes, created_at, updated_at, deleted_at FROM seamless_pipes WHERE deleted_at IS NULL AND (pipe_number LIKE ? OR batch_number LIKE ?) ORDER BY created_at DESC LIMIT 50";

/// The fifty newest screen pipes whose number or batch matches, with their columns.
pub const SCREEN_ROWS_SEARCH: &'static str = "SELECT id, pipe_number, batch_number, screen_type, slot_size, filtration_grade, base_od, base_wt, base_grade, base_end_type, length, weight_per_unit, heat_number, serial_number, manufacturer, production_date, cert_number, location_id, status, notes, created_at, updated_at, deleted_at FROM screen_pipes WHERE deleted_at IS NULL AND (pipe_number LIKE ? OR batch_number LIKE ?) ORDER BY created_at DESC LIMIT 50";

/// Inline condition text `(pipe_number LIKE '%`.
pub const LIKE_NUMBER_OPEN: &'static str = "(pipe_number LIKE '%";

/// Inline condition text `%' OR batch_number LIKE '%`.
pub const LIKE_BATCH_NEXT: &'static str = "%' OR batch_number LIKE '%";

/// Inline condition text `%' OR grade LIKE '%`.
pub const LIKE_GRADE_NEXT: &'static str = "%' OR grade LIKE '%";

/// Inline condition text `%' OR base_grade LIKE '%`.
pub const LIKE_BASE_GRADE_NEXT: &'static str = "%' OR base_grade LIKE '%";

/// Inline condition text `%')`.
pub const LIKE_CLOSE: &'static str = "%')";

/// Inline condition text `grade = '`.
pub const GRADE_IS: &'static str = "grade = '";

/// Inline condition text `base_grade = '`.
pub const BASE_GRADE_IS: &'static str = "base_grade = '";

/// Inline condition text `pipe_type = '`.
pub const PIPE_TYPE_IS: &'static str = "pipe_type = '";

/// Inline condition text `screen_type = '`.
pub const SCREEN_TYPE_IS: &'static str = "screen_type = '";

/// Inline condition text `status = '`.
pub const STATUS_IS: &'static str = "status = '";

/// Inline condition text `manufacturer = '`.
pub const MANUFACTURER_IS: &'static str = "manufacturer = '";

/// Inline condition text `'`.
pub const QUOTE: &'static str = "'";

/// Inline condition text `od >= `.
pub const OD_AT_LEAST: &'static str = "od >= ";

/// Inline condition text `od <= `.
pub const OD_AT_MOST: &'static str = "od <= ";

/// Inline condition text `wt >= `.
pub const WT_AT_LEAST: &'static str = "wt >= ";

/// Inline condition text `wt <= `.
pub const WT_AT_MOST: &'static str = "wt <= ";

/// Inline condition text `base_od >= `.
pub const BASE_OD_AT_LEAST: &'static str = "base_od >= ";

/// Inline condition text `base_od <= `.
pub const BASE_OD_AT_MOST: &'static str = "base_od <= ";

/// Inline condition text `base_wt >= `.
pub const BASE_WT_AT_LEAST: &'static str = "base_wt >= ";

/// Inline condition text `base_wt <= `.
pub const BASE_WT_AT_MOST: &'static str = "base_wt <= ";

/// Inline condition text `location_id = `.
pub const LOCATION_IS: &'static str = "location_id = ";

/// `LIMIT` with its spaces.
pub const LIMIT_WORD: &'static str = " LIMIT ";

/// `OFFSET` with its spaces.
pub const OFFSET_WORD: &'static str = " OFFSET ";

/// Seamless pipes by optional grade, status and number fragment; the ordering follows.
pub const SEAMLESS_NUMBERED_LIST: &'static str = "SELECT * FROM seamless_pipes WHERE deleted_at IS NULL AND (?1 IS NULL OR grade = ?1) AND (?2 IS NULL OR status = ?2) AND (?3 IS NULL OR pipe_number LIKE '%' || ?3 || '%') ORDER BY ";

/// Counts seamless pipes by optional grade, status and number fragment.
pub const SEAMLESS_NUMBERED_COUNT: &'static str = "SELECT COUNT(*) FROM seamless_pipes WHERE deleted_at IS NULL AND (?1 IS NULL OR grade = ?1) AND (?2 IS NULL OR status = ?2) AND (?3 IS NULL OR pipe_number LIKE '%' || ?3 || '%')";

/// Screen pipes by optional grade, status and number fragment; the ordering follows.
pub const SCREEN_NUMBERED_LIST: &'static str = "SELECT * FROM screen_pipes WHERE deleted_at IS NULL AND (?1 IS NULL OR grade = ?1) AND (?2 IS NULL OR status = ?2) AND (?3 IS NULL OR pipe_number LIKE '%' || ?3 || '%') ORDER BY ";

/// Counts screen pipes by optional grade, status and number fragment.
pub const SCREEN_NUMBERED_COUNT: &'static str = "SELECT COUNT(*) FROM screen_pipes WHERE deleted_at IS NULL AND (?1 IS NULL OR grade = ?1) AND (?2 IS NULL OR status = ?2) AND (?3 IS NULL OR pipe_number LIKE '%' || ?3 || '%')";

/// The page of a statement with numbered placeholders.
pub const NUMBERED_PAGE: &'static str = " LIMIT ?4 OFFSET ?5";

} // verus!
