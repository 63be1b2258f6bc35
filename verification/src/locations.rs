//! Warehouses and storage locations: rows, list filters and list queries.
use vstd::prelude::*;
use crate::query::{
    Conditions, ListQuery, SqlValue, clause_if, clauses_view, conditions_text, int_param, like_param, page_offset_fits, page_params, paged_list, params_view, text_param, well_bound,
};
use crate::sql_text::{
    lemma_code_eq, lemma_locations_count, lemma_locations_list, lemma_name_like, lemma_page_by_id_desc, lemma_warehouses_count, lemma_warehouses_list, lemma_warehouse_id_eq, CODE_EQ, LOCATIONS_COUNT, LOCATIONS_LIST, NAME_LIKE, PAGE_BY_ID_DESC, WAREHOUSES_COUNT, WAREHOUSES_LIST, WAREHOUSE_ID_EQ,
};

verus! {

/// One row of `warehouses`.
pub struct WarehouseRow {
    pub id: i64,
    pub code: String,
    pub name: String,
    pub address: Option<String>,
    pub created_at: String,
    pub updated_at: String,
    pub deleted_at: Option<String>,
}

/// One row of `locations` (a storage bin, optionally inside a warehouse).
pub struct LocationRow {
    pub id: i64,
    pub warehouse_id: Option<i64>,
    pub code: String,
    pub name: String,
    pub created_at: String,
    pub updated_at: String,
    pub deleted_at: Option<String>,
}

/// The optional filters of the warehouse list.
pub struct WarehouseFilter<'a> {
    pub code: Option<&'a str>,
    pub name: Option<&'a str>,
}

/// The conditions of a `WarehouseFilter`, in the order the query writes them.
pub open spec fn warehouse_clauses(f: WarehouseFilter) -> Seq<Seq<char>> {
    clause_if(f.code is Some, CODE_EQ@)
        + clause_if(f.name is Some, NAME_LIKE@)
}

/// The parameters of a `WarehouseFilter`, in placeholder order.
pub open spec fn warehouse_params(f: WarehouseFilter) -> Seq<SqlValue> {
    text_param(f.code) + like_param(f.name)
}

fn warehouse_conditions(f: &WarehouseFilter) -> (r: Conditions)
    ensures
        clauses_view(r.clauses@) == warehouse_clauses(*f),
        params_view(r.params@) == warehouse_params(*f),
        r.wf(),
{
    proof {
        lemma_code_eq();
        lemma_name_like();
    }
    let mut c = Conditions::new();
    proof {
        assert(clauses_view(c.clauses@) =~= Seq::<Seq<char>>::empty());
        assert(params_view(c.params@) =~= Seq::<SqlValue>::empty());
    }
    c.add_text(CODE_EQ, f.code);
    c.add_like(NAME_LIKE, f.name);
    proof {
        assert(clauses_view(c.clauses@) =~= warehouse_clauses(*f));
        assert(params_view(c.params@) =~= warehouse_params(*f));
    }
    c
}

/// The queries of `list_warehouses`: warehouses not deleted, by code and name substring, newest first, one page.
pub fn list_warehouses_query(filter: &WarehouseFilter, page: i64, page_size: i64) -> (r: ListQuery)
    requires
        page_offset_fits(page, page_size),
    ensures
        r.count@.sql == WAREHOUSES_COUNT@ + conditions_text(warehouse_clauses(*filter), " AND "@),
        r.count@.params == warehouse_params(*filter),
        r.list@.sql == WAREHOUSES_LIST@ + conditions_text(warehouse_clauses(*filter), " AND "@)
            + PAGE_BY_ID_DESC@,
        r.list@.params == warehouse_params(*filter) + page_params(page, page_size),
        well_bound(r.count@),
        well_bound(r.list@),
{
    proof {
        lemma_warehouses_count();
        lemma_warehouses_list();
        lemma_page_by_id_desc();
        crate::query::lemma_and_sep();
    }
    let a = warehouse_conditions(filter);
    let b = warehouse_conditions(filter);
    paged_list(WAREHOUSES_COUNT, WAREHOUSES_LIST, " AND ", a, b, PAGE_BY_ID_DESC, page, page_size)
}

/// The optional filters of the location list.
pub struct LocationFilter<'a> {
    pub warehouse_id: Option<i64>,
    pub code: Option<&'a str>,
    pub name: Option<&'a str>,
}

/// The conditions of a `LocationFilter`, in the order the query writes them.
pub open spec fn location_clauses(f: LocationFilter) -> Seq<Seq<char>> {
    clause_if(f.warehouse_id is Some, WAREHOUSE_ID_EQ@)
        + clause_if(f.code is Some, CODE_EQ@)
        + clause_if(f.name is Some, NAME_LIKE@)
}

/// The parameters of a `LocationFilter`, in placeholder order.
pub open spec fn decimal_params(f: LocationFilter) -> Seq<SqlValue> {
    int_param(f.warehouse_id) + text_param(f.code) + like_param(f.name)
}

fn location_conditions(f: &LocationFilter) -> (r: Conditions)
    ensures
        clauses_view(r.clauses@) == location_clauses(*f),
        params_view(r.params@) == decimal_params(*f),
        r.wf(),
{
    proof {
        lemma_warehouse_id_eq();
        lemma_code_eq();
        lemma_name_like();
    }
    let mut c = Conditions::new();
    proof {
        assert(clauses_view(c.clauses@) =~= Seq::<Seq<char>>::empty());
        assert(params_view(c.params@) =~= Seq::<SqlValue>::empty());
    }
    c.add_int(WAREHOUSE_ID_EQ, f.warehouse_id);
    c.add_text(CODE_EQ, f.code);
    c.add_like(NAME_LIKE, f.name);
    proof {
        assert(clauses_view(c.clauses@) =~= location_clauses(*f));
        assert(params_view(c.params@) =~= decimal_params(*f));
    }
    c
}

/// The queries of `list_locations`: locations not deleted, by warehouse, code and name substring, newest first, one page.
pub fn list_locations_query(filter: &LocationFilter, page: i64, page_size: i64) -> (r: ListQuery)
    requires
        page_offset_fits(page, page_size),
    ensures
        r.count@.sql == LOCATIONS_COUNT@ + conditions_text(location_clauses(*filter), " AND "@),
        r.count@.params == decimal_params(*filter),
        r.list@.sql == LOCATIONS_LIST@ + conditions_text(location_clauses(*filter), " AND "@)
            + PAGE_BY_ID_DESC@,
        r.list@.params == decimal_params(*filter) + page_params(page, page_size),
        well_bound(r.count@),
        well_bound(r.list@),
{
    proof {
        lemma_locations_count();
        lemma_locations_list();
        lemma_page_by_id_desc();
        crate::query::lemma_and_sep();
    }
    let a = location_conditions(filter);
    let b = location_conditions(filter);
    paged_list(LOCATIONS_COUNT, LOCATIONS_LIST, " AND ", a, b, PAGE_BY_ID_DESC, page, page_size)
}

} // verus!
