//! The item master (`items`): its rows, its list filter and the list queries.
use vstd::prelude::*;
use crate::query::SqlQuery;
use crate::query::SqlParam;
use crate::text::owned;
use crate::query::nullable_text;
use crate::query::nullable_param;
use crate::query::{
    clauses_view, conditions_text, like_param, page_offset_fits, page_params, paged_list,
    params_view, text_param, clause_if, well_bound, Conditions, ListQuery, SqlValue,
};
use crate::sql_text::{
    lemma_category_eq, lemma_items_count, lemma_items_list, lemma_name_like,
    lemma_page_by_id_desc, lemma_sku_eq, lemma_status_eq, CATEGORY_EQ, ITEMS_COUNT, ITEMS_LIST,
    NAME_LIKE, PAGE_BY_ID_DESC, SKU_EQ, STATUS_EQ,
};

verus! {

/// One row of `items`.
pub struct ItemRow {
    pub id: i64,
    pub sku: String,
    pub name: String,
    pub category: Option<String>,
    pub unit: Option<String>,
    pub spec: Option<String>,
    pub status: String,
    pub created_at: String,
    pub updated_at: String,
    pub deleted_at: Option<String>,
}

/// The optional filters of the item list.
pub struct ItemFilter<'a> {
    pub sku: Option<&'a str>,
    pub name: Option<&'a str>,
    pub category: Option<&'a str>,
    pub status: Option<&'a str>,
}

/// The conditions of an item filter, in the order the list query writes them.
pub open spec fn item_clauses(f: ItemFilter) -> Seq<Seq<char>> {
    clause_if(f.sku is Some, SKU_EQ@) + clause_if(f.name is Some, NAME_LIKE@) + clause_if(
        f.category is Some,
        CATEGORY_EQ@,
    ) + clause_if(f.status is Some, STATUS_EQ@)
}

/// The parameters of an item filter: the SKU, `%name%`, the category and the status.
pub open spec fn item_params(f: ItemFilter) -> Seq<SqlValue> {
    text_param(f.sku) + like_param(f.name) + text_param(f.category) + text_param(f.status)
}

fn item_conditions(f: &ItemFilter) -> (r: Conditions)
    ensures
        clauses_view(r.clauses@) == item_clauses(*f),
        params_view(r.params@) == item_params(*f),
        r.wf(),
{
    proof {
        lemma_sku_eq();
        lemma_name_like();
        lemma_category_eq();
        lemma_status_eq();
    }
    let mut c = Conditions::new();
    proof {
        assert(clauses_view(c.clauses@) =~= Seq::<Seq<char>>::empty());
        assert(params_view(c.params@) =~= Seq::<SqlValue>::empty());
    }
    c.add_text(SKU_EQ, f.sku);
    c.add_like(NAME_LIKE, f.name);
    c.add_text(CATEGORY_EQ, f.category);
    c.add_text(STATUS_EQ, f.status);
    proof {
        assert(clauses_view(c.clauses@) =~= item_clauses(*f));
        assert(params_view(c.params@) =~= item_params(*f));
    }
    c
}

/// The queries of `list_items`: items not deleted, narrowed by each given filter
/// (`name` as a substring), newest first, one page.
pub fn list_items_query(filter: &ItemFilter, page: i64, page_size: i64) -> (r: ListQuery)
    requires
        page_offset_fits(page, page_size),
    ensures
        r.count@.sql == ITEMS_COUNT@ + conditions_text(item_clauses(*filter), " AND "@),
        r.count@.params == item_params(*filter),
        r.list@.sql == ITEMS_LIST@ + conditions_text(item_clauses(*filter), " AND "@)
            + PAGE_BY_ID_DESC@,
        r.list@.params == item_params(*filter) + page_params(page, page_size),
        well_bound(r.count@),
        well_bound(r.list@),
{
    proof {
        lemma_items_count();
        lemma_items_list();
        lemma_page_by_id_desc();
        crate::query::lemma_and_sep();
    }
    let a = item_conditions(filter);
    let b = item_conditions(filter);
    paged_list(ITEMS_COUNT, ITEMS_LIST, " AND ", a, b, PAGE_BY_ID_DESC, page, page_size)
}

/// A live item by id.
pub const ITEM_BY_ID: &'static str = "SELECT id, sku, name, category, unit, spec, status, created_at, updated_at, deleted_at\n         FROM items WHERE id = ? AND deleted_at IS NULL";

/// A live item by SKU.
pub const ITEM_BY_SKU: &'static str = "SELECT id, sku, name, category, unit, spec, status, created_at, updated_at, deleted_at\n         FROM items WHERE sku = ? AND deleted_at IS NULL";

/// Inserts an item in status `draft`.
pub const ITEM_CREATE: &'static str = "INSERT INTO items (sku, name, category, unit, spec, status)\n         VALUES (?, ?, ?, ?, ?, 'draft')";

/// Replaces every field of a live item.
pub const ITEM_UPDATE: &'static str = "UPDATE items SET sku = ?, name = ?, category = ?, unit = ?, spec = ?, status = ?,\n         updated_at = datetime('now')\n         WHERE id = ? AND deleted_at IS NULL";

/// Soft-deletes a live item.
pub const ITEM_SOFT_DELETE: &'static str = "UPDATE items SET deleted_at = datetime('now')\n         WHERE id = ? AND deleted_at IS NULL";

/// The distinct categories of live items, in order.
pub const ITEM_CATEGORIES: &'static str = "SELECT DISTINCT category FROM items\n         WHERE category IS NOT NULL AND deleted_at IS NULL\n         ORDER BY category";

/// Finds item `id`, unless deleted.
pub fn item_by_id_query(id: i64) -> (r: SqlQuery)
    ensures
        r@.sql == ITEM_BY_ID@,
        r@.params == seq![SqlValue::Int(id)],
{
    let mut params: Vec<SqlParam> = Vec::new();
    params.push(SqlParam::Int(id));
    proof {
        assert(params_view(params@) =~= seq![SqlValue::Int(id)]);
    }
    SqlQuery { sql: owned(ITEM_BY_ID), params }
}

/// Finds the live item with SKU `sku`.
pub fn item_by_sku_query(sku: &str) -> (r: SqlQuery)
    ensures
        r@.sql == ITEM_BY_SKU@,
        r@.params == seq![SqlValue::Text(sku@)],
{
    let mut params: Vec<SqlParam> = Vec::new();
    params.push(SqlParam::Text(owned(sku)));
    proof {
        assert(params_view(params@) =~= seq![SqlValue::Text(sku@)]);
    }
    SqlQuery { sql: owned(ITEM_BY_SKU), params }
}

/// Creates an item in status `draft`; the caller reads it back by the new row id.
pub fn create_item_query(sku: &str, name: &str, category: Option<&str>, unit: Option<&str>, spec: Option<&str>) -> (r: SqlQuery)
    ensures
        r@.sql == ITEM_CREATE@,
        r@.params == seq![SqlValue::Text(sku@), SqlValue::Text(name@), nullable_text(category), nullable_text(unit), nullable_text(spec)],
{
    let mut params: Vec<SqlParam> = Vec::new();
    params.push(SqlParam::Text(owned(sku)));
    params.push(SqlParam::Text(owned(name)));
    params.push(nullable_param(category));
    params.push(nullable_param(unit));
    params.push(nullable_param(spec));
    proof {
        assert(params_view(params@) =~= seq![SqlValue::Text(sku@), SqlValue::Text(name@), nullable_text(category), nullable_text(unit), nullable_text(spec)]);
    }
    SqlQuery { sql: owned(ITEM_CREATE), params }
}

/// Sets all fields of item `id`; no row changed means the item was not found.
pub fn update_item_query(sku: &str, name: &str, category: Option<&str>, unit: Option<&str>, spec: Option<&str>, status: &str, id: i64) -> (r: SqlQuery)
    ensures
        r@.sql == ITEM_UPDATE@,
        r@.params == seq![SqlValue::Text(sku@), SqlValue::Text(name@), nullable_text(category), nullable_text(unit), nullable_text(spec), SqlValue::Text(status@), SqlValue::Int(id)],
{
    let mut params: Vec<SqlParam> = Vec::new();
    params.push(SqlParam::Text(owned(sku)));
    params.push(SqlParam::Text(owned(name)));
    params.push(nullable_param(category));
    params.push(nullable_param(unit));
    params.push(nullable_param(spec));
    params.push(SqlParam::Text(owned(status)));
    params.push(SqlParam::Int(id));
    proof {
        assert(params_view(params@) =~= seq![SqlValue::Text(sku@), SqlValue::Text(name@), nullable_text(category), nullable_text(unit), nullable_text(spec), SqlValue::Text(status@), SqlValue::Int(id)]);
    }
    SqlQuery { sql: owned(ITEM_UPDATE), params }
}

/// Soft-deletes item `id`; no row changed means the item was not found.
pub fn soft_delete_item_query(id: i64) -> (r: SqlQuery)
    ensures
        r@.sql == ITEM_SOFT_DELETE@,
        r@.params == seq![SqlValue::Int(id)],
{
    let mut params: Vec<SqlParam> = Vec::new();
    params.push(SqlParam::Int(id));
    proof {
        assert(params_view(params@) =~= seq![SqlValue::Int(id)]);
    }
    SqlQuery { sql: owned(ITEM_SOFT_DELETE), params }
}

/// The categories in use by live items, each once, in order.
pub fn list_categories_query() -> (r: SqlQuery)
    ensures
        r@.sql == ITEM_CATEGORIES@,
        r@.params.len() == 0,
{
    let mut params: Vec<SqlParam> = Vec::new();
    SqlQuery { sql: owned(ITEM_CATEGORIES), params }
}

} // verus!
