//! Suppliers and customers: rows, list filters and list queries.
use vstd::prelude::*;
use crate::query::{
    Conditions, ListQuery, SqlValue, clause_if, clauses_view, conditions_text, like_param, page_offset_fits, page_params, paged_list, params_view, text_param, well_bound,
};
use crate::sql_text::{
    lemma_code_eq, lemma_customers_count, lemma_customers_list, lemma_name_like, lemma_page_by_id_desc, lemma_status_eq, lemma_suppliers_count, lemma_suppliers_list, CODE_EQ, CUSTOMERS_COUNT, CUSTOMERS_LIST, NAME_LIKE, PAGE_BY_ID_DESC, STATUS_EQ, SUPPLIERS_COUNT, SUPPLIERS_LIST,
};

verus! {

/// One row of `suppliers`.
pub struct SupplierRow {
    pub id: i64,
    pub code: String,
    pub name: String,
    pub contact: Option<String>,
    pub phone: Option<String>,
    pub email: Option<String>,
    pub address: Option<String>,
    pub status: String,
    pub created_at: String,
    pub updated_at: String,
    pub deleted_at: Option<String>,
}

/// One row of `customers`.
pub struct CustomerRow {
    pub id: i64,
    pub code: String,
    pub name: String,
    pub contact: Option<String>,
    pub phone: Option<String>,
    pub email: Option<String>,
    pub address: Option<String>,
    pub status: String,
    pub created_at: String,
    pub updated_at: String,
    pub deleted_at: Option<String>,
}

/// The optional filters of the supplier list.
pub struct SupplierFilter<'a> {
    pub code: Option<&'a str>,
    pub name: Option<&'a str>,
    pub status: Option<&'a str>,
}

/// The conditions of a `SupplierFilter`, in the order the query writes them.
pub open spec fn supplier_clauses(f: SupplierFilter) -> Seq<Seq<char>> {
    clause_if(f.code is Some, CODE_EQ@)
        + clause_if(f.name is Some, NAME_LIKE@)
        + clause_if(f.status is Some, STATUS_EQ@)
}

/// The parameters of a `SupplierFilter`, in placeholder order.
pub open spec fn supplier_params(f: SupplierFilter) -> Seq<SqlValue> {
    text_param(f.code) + like_param(f.name) + text_param(f.status)
}

fn supplier_conditions(f: &SupplierFilter) -> (r: Conditions)
    ensures
        clauses_view(r.clauses@) == supplier_clauses(*f),
        params_view(r.params@) == supplier_params(*f),
        r.wf(),
{
    proof {
        lemma_code_eq();
        lemma_name_like();
        lemma_status_eq();
    }
    let mut c = Conditions::new();
    proof {
        assert(clauses_view(c.clauses@) =~= Seq::<Seq<char>>::empty());
        assert(params_view(c.params@) =~= Seq::<SqlValue>::empty());
    }
    c.add_text(CODE_EQ, f.code);
    c.add_like(NAME_LIKE, f.name);
    c.add_text(STATUS_EQ, f.status);
    proof {
        assert(clauses_view(c.clauses@) =~= supplier_clauses(*f));
        assert(params_view(c.params@) =~= supplier_params(*f));
    }
    c
}

/// The queries of `list_suppliers`: suppliers not deleted, by code, name substring and status, newest first, one page.
pub fn list_suppliers_query(filter: &SupplierFilter, page: i64, page_size: i64) -> (r: ListQuery)
    requires
        page_offset_fits(page, page_size),
    ensures
        r.count@.sql == SUPPLIERS_COUNT@ + conditions_text(supplier_clauses(*filter), " AND "@),
        r.count@.params == supplier_params(*filter),
        r.list@.sql == SUPPLIERS_LIST@ + conditions_text(supplier_clauses(*filter), " AND "@)
            + PAGE_BY_ID_DESC@,
        r.list@.params == supplier_params(*filter) + page_params(page, page_size),
        well_bound(r.count@),
        well_bound(r.list@),
{
    proof {
        lemma_suppliers_count();
        lemma_suppliers_list();
        lemma_page_by_id_desc();
        crate::query::lemma_and_sep();
    }
    let a = supplier_conditions(filter);
    let b = supplier_conditions(filter);
    paged_list(SUPPLIERS_COUNT, SUPPLIERS_LIST, " AND ", a, b, PAGE_BY_ID_DESC, page, page_size)
}

/// The optional filters of the customer list.
pub struct CustomerFilter<'a> {
    pub code: Option<&'a str>,
    pub name: Option<&'a str>,
    pub status: Option<&'a str>,
}

/// The conditions of a `CustomerFilter`, in the order the query writes them.
pub open spec fn customer_clauses(f: CustomerFilter) -> Seq<Seq<char>> {
    clause_if(f.code is Some, CODE_EQ@)
        + clause_if(f.name is Some, NAME_LIKE@)
        + clause_if(f.status is Some, STATUS_EQ@)
}

/// The parameters of a `CustomerFilter`, in placeholder order.
pub open spec fn customer_params(f: CustomerFilter) -> Seq<SqlValue> {
    text_param(f.code) + like_param(f.name) + text_param(f.status)
}

fn customer_conditions(f: &CustomerFilter) -> (r: Conditions)
    ensures
        clauses_view(r.clauses@) == customer_clauses(*f),
        params_view(r.params@) == customer_params(*f),
        r.wf(),
{
    proof {
        lemma_code_eq();
        lemma_name_like();
        lemma_status_eq();
    }
    let mut c = Conditions::new();
    proof {
        assert(clauses_view(c.clauses@) =~= Seq::<Seq<char>>::empty());
        assert(params_view(c.params@) =~= Seq::<SqlValue>::empty());
    }
    c.add_text(CODE_EQ, f.code);
    c.add_like(NAME_LIKE, f.name);
    c.add_text(STATUS_EQ, f.status);
    proof {
        assert(clauses_view(c.clauses@) =~= customer_clauses(*f));
        assert(params_view(c.params@) =~= customer_params(*f));
    }
    c
}

/// The queries of `list_customers`: customers not deleted, by code, name substring and status, newest first, one page.
pub fn list_customers_query(filter: &CustomerFilter, page: i64, page_size: i64) -> (r: ListQuery)
    requires
        page_offset_fits(page, page_size),
    ensures
        r.count@.sql == CUSTOMERS_COUNT@ + conditions_text(customer_clauses(*filter), " AND "@),
        r.count@.params == customer_params(*filter),
        r.list@.sql == CUSTOMERS_LIST@ + conditions_text(customer_clauses(*filter), " AND "@)
            + PAGE_BY_ID_DESC@,
        r.list@.params == customer_params(*filter) + page_params(page, page_size),
        well_bound(r.count@),
        well_bound(r.list@),
{
    proof {
        lemma_customers_count();
        lemma_customers_list();
        lemma_page_by_id_desc();
        crate::query::lemma_and_sep();
    }
    let a = customer_conditions(filter);
    let b = customer_conditions(filter);
    paged_list(CUSTOMERS_COUNT, CUSTOMERS_LIST, " AND ", a, b, PAGE_BY_ID_DESC, page, page_size)
}

} // verus!
