//! The stock summary report.
use vstd::prelude::*;
use crate::query::{SqlParam, SqlQuery};
use crate::text::owned;

verus! {

/// The stock summary: each live item with its total quantity and the number of locations that hold it.
pub const INVENTORY_SUMMARY: &'static str = "SELECT i.id, i.sku, i.name, i.category,\n                COALESCE(SUM(inv.quantity), 0.0) AS total_qty,\n                COUNT(DISTINCT inv.location_id) AS location_count\n         FROM items i\n         LEFT JOIN inventory inv ON inv.item_id = i.id\n         WHERE i.deleted_at IS NULL\n         GROUP BY i.id, i.sku, i.name, i.category\n         ORDER BY i.sku";

/// The stock summary: each live item with its total quantity and the number of locations that hold it.
pub fn inventory_summary_query() -> (r: SqlQuery)
    ensures
        r@.sql == INVENTORY_SUMMARY@,
        r@.params.len() == 0,
{
    let mut params: Vec<SqlParam> = Vec::new();
    SqlQuery { sql: owned(INVENTORY_SUMMARY), params }
}

} // verus!
