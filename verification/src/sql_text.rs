//! The fixed text of the repositories' queries, each with the number of
//! placeholders it holds.
use vstd::prelude::*;
use crate::text::{count_char, count_upto};

verus! {

/// Filter condition `sku = ?`.
pub const SKU_EQ: &'static str = "sku = ?";

/// `SKU_EQ` holds 1 placeholder.
pub proof fn lemma_sku_eq()
    ensures
        count_char(SKU_EQ@, '?') == 1,
{
    reveal_strlit("sku = ?");
    reveal_with_fuel(count_upto, 41);
    let s = SKU_EQ@;
    assert(s.len() == 7);
}

/// Filter condition `name LIKE ?`.
pub const NAME_LIKE: &'static str = "name LIKE ?";

/// `NAME_LIKE` holds 1 placeholder.
pub proof fn lemma_name_like()
    ensures
        count_char(NAME_LIKE@, '?') == 1,
{
    reveal_strlit("name LIKE ?");
    reveal_with_fuel(count_upto, 41);
    let s = NAME_LIKE@;
    assert(s.len() == 11);
}

/// Filter condition `category = ?`.
pub const CATEGORY_EQ: &'static str = "category = ?";

/// `CATEGORY_EQ` holds 1 placeholder.
pub proof fn lemma_category_eq()
    ensures
        count_char(CATEGORY_EQ@, '?') == 1,
{
    reveal_strlit("category = ?");
    reveal_with_fuel(count_upto, 41);
    let s = CATEGORY_EQ@;
    assert(s.len() == 12);
}

/// Filter condition `status = ?`.
pub const STATUS_EQ: &'static str = "status = ?";

/// `STATUS_EQ` holds 1 placeholder.
pub proof fn lemma_status_eq()
    ensures
        count_char(STATUS_EQ@, '?') == 1,
{
    reveal_strlit("status = ?");
    reveal_with_fuel(count_upto, 41);
    let s = STATUS_EQ@;
    assert(s.len() == 10);
}

/// Filter condition `code = ?`.
pub const CODE_EQ: &'static str = "code = ?";

/// `CODE_EQ` holds 1 placeholder.
pub proof fn lemma_code_eq()
    ensures
        count_char(CODE_EQ@, '?') == 1,
{
    reveal_strlit("code = ?");
    reveal_with_fuel(count_upto, 41);
    let s = CODE_EQ@;
    assert(s.len() == 8);
}

/// Filter condition `warehouse_id = ?`.
pub const WAREHOUSE_ID_EQ: &'static str = "warehouse_id = ?";

/// `WAREHOUSE_ID_EQ` holds 1 placeholder.
pub proof fn lemma_warehouse_id_eq()
    ensures
        count_char(WAREHOUSE_ID_EQ@, '?') == 1,
{
    reveal_strlit("warehouse_id = ?");
    reveal_with_fuel(count_upto, 41);
    let s = WAREHOUSE_ID_EQ@;
    assert(s.len() == 16);
}

/// Filter condition `supplier_id = ?`.
pub const SUPPLIER_ID_EQ: &'static str = "supplier_id = ?";

/// `SUPPLIER_ID_EQ` holds 1 placeholder.
pub proof fn lemma_supplier_id_eq()
    ensures
        count_char(SUPPLIER_ID_EQ@, '?') == 1,
{
    reveal_strlit("supplier_id = ?");
    reveal_with_fuel(count_upto, 41);
    let s = SUPPLIER_ID_EQ@;
    assert(s.len() == 15);
}

/// Filter condition `customer_id = ?`.
pub const CUSTOMER_ID_EQ: &'static str = "customer_id = ?";

/// `CUSTOMER_ID_EQ` holds 1 placeholder.
pub proof fn lemma_customer_id_eq()
    ensures
        count_char(CUSTOMER_ID_EQ@, '?') == 1,
{
    reveal_strlit("customer_id = ?");
    reveal_with_fuel(count_upto, 41);
    let s = CUSTOMER_ID_EQ@;
    assert(s.len() == 15);
}

/// Filter condition `order_date >= ?`.
pub const ORDER_DATE_FROM: &'static str = "order_date >= ?";

/// `ORDER_DATE_FROM` holds 1 placeholder.
pub proof fn lemma_order_date_from()
    ensures
        count_char(ORDER_DATE_FROM@, '?') == 1,
{
    reveal_strlit("order_date >= ?");
    reveal_with_fuel(count_upto, 41);
    let s = ORDER_DATE_FROM@;
    assert(s.len() == 15);
}

/// Filter condition `order_date <= ?`.
pub const ORDER_DATE_TO: &'static str = "order_date <= ?";

/// `ORDER_DATE_TO` holds 1 placeholder.
pub proof fn lemma_order_date_to()
    ensures
        count_char(ORDER_DATE_TO@, '?') == 1,
{
    reveal_strlit("order_date <= ?");
    reveal_with_fuel(count_upto, 41);
    let s = ORDER_DATE_TO@;
    assert(s.len() == 15);
}

/// Filter condition `order_no LIKE ?`.
pub const ORDER_NO_LIKE: &'static str = "order_no LIKE ?";

/// `ORDER_NO_LIKE` holds 1 placeholder.
pub proof fn lemma_order_no_like()
    ensures
        count_char(ORDER_NO_LIKE@, '?') == 1,
{
    reveal_strlit("order_no LIKE ?");
    reveal_with_fuel(count_upto, 41);
    let s = ORDER_NO_LIKE@;
    assert(s.len() == 15);
}

/// Filter condition `inbound_type = ?`.
pub const INBOUND_TYPE_EQ: &'static str = "inbound_type = ?";

/// `INBOUND_TYPE_EQ` holds 1 placeholder.
pub proof fn lemma_inbound_type_eq()
    ensures
        count_char(INBOUND_TYPE_EQ@, '?') == 1,
{
    reveal_strlit("inbound_type = ?");
    reveal_with_fuel(count_upto, 41);
    let s = INBOUND_TYPE_EQ@;
    assert(s.len() == 16);
}

/// Filter condition `outbound_type = ?`.
pub const OUTBOUND_TYPE_EQ: &'static str = "outbound_type = ?";

/// `OUTBOUND_TYPE_EQ` holds 1 placeholder.
pub proof fn lemma_outbound_type_eq()
    ensures
        count_char(OUTBOUND_TYPE_EQ@, '?') == 1,
{
    reveal_strlit("outbound_type = ?");
    reveal_with_fuel(count_upto, 41);
    let s = OUTBOUND_TYPE_EQ@;
    assert(s.len() == 17);
}

/// Filter condition `item_id = ?`.
pub const ITEM_ID_EQ: &'static str = "item_id = ?";

/// `ITEM_ID_EQ` holds 1 placeholder.
pub proof fn lemma_item_id_eq()
    ensures
        count_char(ITEM_ID_EQ@, '?') == 1,
{
    reveal_strlit("item_id = ?");
    reveal_with_fuel(count_upto, 41);
    let s = ITEM_ID_EQ@;
    assert(s.len() == 11);
}

/// Filter condition `location_id = ?`.
pub const LOCATION_ID_EQ: &'static str = "location_id = ?";

/// `LOCATION_ID_EQ` holds 1 placeholder.
pub proof fn lemma_location_id_eq()
    ensures
        count_char(LOCATION_ID_EQ@, '?') == 1,
{
    reveal_strlit("location_id = ?");
    reveal_with_fuel(count_upto, 41);
    let s = LOCATION_ID_EQ@;
    assert(s.len() == 15);
}

/// Filter condition `change_type = ?`.
pub const CHANGE_TYPE_EQ: &'static str = "change_type = ?";

/// `CHANGE_TYPE_EQ` holds 1 placeholder.
pub proof fn lemma_change_type_eq()
    ensures
        count_char(CHANGE_TYPE_EQ@, '?') == 1,
{
    reveal_strlit("change_type = ?");
    reveal_with_fuel(count_upto, 41);
    let s = CHANGE_TYPE_EQ@;
    assert(s.len() == 15);
}

/// Filter condition `inv.item_id = ?`.
pub const INV_ITEM_ID_EQ: &'static str = "inv.item_id = ?";

/// `INV_ITEM_ID_EQ` holds 1 placeholder.
pub proof fn lemma_inv_item_id_eq()
    ensures
        count_char(INV_ITEM_ID_EQ@, '?') == 1,
{
    reveal_strlit("inv.item_id = ?");
    reveal_with_fuel(count_upto, 41);
    let s = INV_ITEM_ID_EQ@;
    assert(s.len() == 15);
}

/// Filter condition `inv.location_id = ?`.
pub const INV_LOCATION_ID_EQ: &'static str = "inv.location_id = ?";

/// `INV_LOCATION_ID_EQ` holds 1 placeholder.
pub proof fn lemma_inv_location_id_eq()
    ensures
        count_char(INV_LOCATION_ID_EQ@, '?') == 1,
{
    reveal_strlit("inv.location_id = ?");
    reveal_with_fuel(count_upto, 41);
    let s = INV_LOCATION_ID_EQ@;
    assert(s.len() == 19);
}

/// Filter condition `loc.warehouse_id = ?`.
pub const LOC_WAREHOUSE_ID_EQ: &'static str = "loc.warehouse_id = ?";

/// `LOC_WAREHOUSE_ID_EQ` holds 1 placeholder.
pub proof fn lemma_loc_warehouse_id_eq()
    ensures
        count_char(LOC_WAREHOUSE_ID_EQ@, '?') == 1,
{
    reveal_strlit("loc.warehouse_id = ?");
    reveal_with_fuel(count_upto, 41);
    let s = LOC_WAREHOUSE_ID_EQ@;
    assert(s.len() == 20);
}

/// Filter condition `account_type = ?`.
pub const ACCOUNT_TYPE_EQ: &'static str = "account_type = ?";

/// `ACCOUNT_TYPE_EQ` holds 1 placeholder.
pub proof fn lemma_account_type_eq()
    ensures
        count_char(ACCOUNT_TYPE_EQ@, '?') == 1,
{
    reveal_strlit("account_type = ?");
    reveal_with_fuel(count_upto, 41);
    let s = ACCOUNT_TYPE_EQ@;
    assert(s.len() == 16);
}

/// Filter condition `is_active = 1`.
pub const IS_ACTIVE: &'static str = "is_active = 1";

/// `IS_ACTIVE` holds 0 placeholders.
pub proof fn lemma_is_active()
    ensures
        count_char(IS_ACTIVE@, '?') == 0,
{
    reveal_strlit("is_active = 1");
    reveal_with_fuel(count_upto, 41);
    let s = IS_ACTIVE@;
    assert(s.len() == 13);
}

/// Filter condition `a.account_type = ?`.
pub const A_ACCOUNT_TYPE_EQ: &'static str = "a.account_type = ?";

/// `A_ACCOUNT_TYPE_EQ` holds 1 placeholder.
pub proof fn lemma_a_account_type_eq()
    ensures
        count_char(A_ACCOUNT_TYPE_EQ@, '?') == 1,
{
    reveal_strlit("a.account_type = ?");
    reveal_with_fuel(count_upto, 41);
    let s = A_ACCOUNT_TYPE_EQ@;
    assert(s.len() == 18);
}

/// Filter condition `a.is_active = 1`.
pub const A_IS_ACTIVE: &'static str = "a.is_active = 1";

/// `A_IS_ACTIVE` holds 0 placeholders.
pub proof fn lemma_a_is_active()
    ensures
        count_char(A_IS_ACTIVE@, '?') == 0,
{
    reveal_strlit("a.is_active = 1");
    reveal_with_fuel(count_upto, 41);
    let s = A_IS_ACTIVE@;
    assert(s.len() == 15);
}

/// Filter condition `business_type = ?`.
pub const BUSINESS_TYPE_EQ: &'static str = "business_type = ?";

/// `BUSINESS_TYPE_EQ` holds 1 placeholder.
pub proof fn lemma_business_type_eq()
    ensures
        count_char(BUSINESS_TYPE_EQ@, '?') == 1,
{
    reveal_strlit("business_type = ?");
    reveal_with_fuel(count_upto, 41);
    let s = BUSINESS_TYPE_EQ@;
    assert(s.len() == 17);
}

/// Filter condition `il.item_id = ?`.
pub const IL_ITEM_ID_EQ: &'static str = "il.item_id = ?";

/// `IL_ITEM_ID_EQ` holds 1 placeholder.
pub proof fn lemma_il_item_id_eq()
    ensures
        count_char(IL_ITEM_ID_EQ@, '?') == 1,
{
    reveal_strlit("il.item_id = ?");
    reveal_with_fuel(count_upto, 41);
    let s = IL_ITEM_ID_EQ@;
    assert(s.len() == 14);
}

/// Filter condition `il.created_at >= ?`.
pub const IL_CREATED_FROM: &'static str = "il.created_at >= ?";

/// `IL_CREATED_FROM` holds 1 placeholder.
pub proof fn lemma_il_created_from()
    ensures
        count_char(IL_CREATED_FROM@, '?') == 1,
{
    reveal_strlit("il.created_at >= ?");
    reveal_with_fuel(count_upto, 41);
    let s = IL_CREATED_FROM@;
    assert(s.len() == 18);
}

/// Filter condition `il.created_at <= ?`.
pub const IL_CREATED_TO: &'static str = "il.created_at <= ?";

/// `IL_CREATED_TO` holds 1 placeholder.
pub proof fn lemma_il_created_to()
    ensures
        count_char(IL_CREATED_TO@, '?') == 1,
{
    reveal_strlit("il.created_at <= ?");
    reveal_with_fuel(count_upto, 41);
    let s = IL_CREATED_TO@;
    assert(s.len() == 18);
}

/// Newest first, one page.
pub const PAGE_BY_ID_DESC: &'static str = " ORDER BY id DESC LIMIT ? OFFSET ?";

/// `PAGE_BY_ID_DESC` holds 2 placeholders.
pub proof fn lemma_page_by_id_desc()
    ensures
        count_char(PAGE_BY_ID_DESC@, '?') == 2,
{
    reveal_strlit(" ORDER BY id DESC LIMIT ? OFFSET ?");
    reveal_with_fuel(count_upto, 41);
    let s = PAGE_BY_ID_DESC@;
    assert(s.len() == 34);
}

/// Stock rows by item (newest first) then location, one page.
pub const PAGE_STOCK: &'static str = " ORDER BY inv.item_id DESC, inv.location_id ASC LIMIT ? OFFSET ?";

/// `PAGE_STOCK` holds 2 placeholders.
pub proof fn lemma_page_stock()
    ensures
        count_char(PAGE_STOCK@, '?') == 2,
{
    reveal_strlit(" ORDER BY inv.item_id DESC, inv.location_id ASC LIMIT ? OFFSET ?");
    reveal_with_fuel(count_upto, 41);
    let s = PAGE_STOCK@;
    assert(count_upto(s, '?', 40) == 0);
    assert(s.len() == 64);
}

/// Accounts by code.
pub const ORDER_BY_CODE: &'static str = " ORDER BY code";

/// `ORDER_BY_CODE` holds 0 placeholders.
pub proof fn lemma_order_by_code()
    ensures
        count_char(ORDER_BY_CODE@, '?') == 0,
{
    reveal_strlit(" ORDER BY code");
    reveal_with_fuel(count_upto, 41);
    let s = ORDER_BY_CODE@;
    assert(s.len() == 14);
}

/// Accounts (joined with their parent) by code.
pub const ORDER_BY_A_CODE: &'static str = " ORDER BY a.code";

/// `ORDER_BY_A_CODE` holds 0 placeholders.
pub proof fn lemma_order_by_a_code()
    ensures
        count_char(ORDER_BY_A_CODE@, '?') == 0,
{
    reveal_strlit(" ORDER BY a.code");
    reveal_with_fuel(count_upto, 41);
    let s = ORDER_BY_A_CODE@;
    assert(s.len() == 16);
}

/// Newest first, no paging.
pub const ORDER_BY_ID_DESC: &'static str = " ORDER BY id DESC";

/// `ORDER_BY_ID_DESC` holds 0 placeholders.
pub proof fn lemma_order_by_id_desc()
    ensures
        count_char(ORDER_BY_ID_DESC@, '?') == 0,
{
    reveal_strlit(" ORDER BY id DESC");
    reveal_with_fuel(count_upto, 41);
    let s = ORDER_BY_ID_DESC@;
    assert(s.len() == 17);
}

/// The thousand most recent movements.
pub const RECENT_LOGS_LIMIT: &'static str = " ORDER BY il.created_at DESC LIMIT 1000";

/// `RECENT_LOGS_LIMIT` holds 0 placeholders.
pub proof fn lemma_recent_logs_limit()
    ensures
        count_char(RECENT_LOGS_LIMIT@, '?') == 0,
{
    reveal_strlit(" ORDER BY il.created_at DESC LIMIT 1000");
    reveal_with_fuel(count_upto, 41);
    let s = RECENT_LOGS_LIMIT@;
    assert(s.len() == 39);
}

/// Nothing after the conditions (the counting queries).
pub const NO_SUFFIX: &'static str = "";

/// `NO_SUFFIX` holds 0 placeholders.
pub proof fn lemma_no_suffix()
    ensures
        count_char(NO_SUFFIX@, '?') == 0,
{
    reveal_strlit("");
    reveal_with_fuel(count_upto, 41);
    let s = NO_SUFFIX@;
    assert(s.len() == 0);
}

/// Counts the items rows.
pub const ITEMS_COUNT: &'static str = "SELECT COUNT(*) FROM items WHERE deleted_at IS NULL";

/// `ITEMS_COUNT` holds 0 placeholders.
pub proof fn lemma_items_count()
    ensures
        count_char(ITEMS_COUNT@, '?') == 0,
{
    reveal_strlit("SELECT COUNT(*) FROM items WHERE deleted_at IS NULL");
    reveal_with_fuel(count_upto, 41);
    let s = ITEMS_COUNT@;
    assert(count_upto(s, '?', 40) == 0);
    assert(s.len() == 51);
}

/// Selects the items rows.
pub const ITEMS_LIST: &'static str = "SELECT id, sku, name, category, unit, spec, status, created_at, updated_at, deleted_at\n         FROM items WHERE deleted_at IS NULL";

/// `ITEMS_LIST` holds 0 placeholders.
pub proof fn lemma_items_list()
    ensures
        count_char(ITEMS_LIST@, '?') == 0,
{
    reveal_strlit("SELECT id, sku, name, category, unit, spec, status, created_at, updated_at, deleted_at\n         FROM items WHERE deleted_at IS NULL");
    reveal_with_fuel(count_upto, 41);
    let s = ITEMS_LIST@;
    assert(count_upto(s, '?', 40) == 0);
    assert(count_upto(s, '?', 80) == 0);
    assert(count_upto(s, '?', 120) == 0);
    assert(s.len() == 131);
}

/// Counts the warehouses rows.
pub const WAREHOUSES_COUNT: &'static str = "SELECT COUNT(*) FROM warehouses WHERE deleted_at IS NULL";

/// `WAREHOUSES_COUNT` holds 0 placeholders.
pub proof fn lemma_warehouses_count()
    ensures
        count_char(WAREHOUSES_COUNT@, '?') == 0,
{
    reveal_strlit("SELECT COUNT(*) FROM warehouses WHERE deleted_at IS NULL");
    reveal_with_fuel(count_upto, 41);
    let s = WAREHOUSES_COUNT@;
    assert(count_upto(s, '?', 40) == 0);
    assert(s.len() == 56);
}

/// Selects the warehouses rows.
pub const WAREHOUSES_LIST: &'static str = "SELECT id, code, name, address, created_at, updated_at, deleted_at\n         FROM warehouses WHERE deleted_at IS NULL";

/// `WAREHOUSES_LIST` holds 0 placeholders.
pub proof fn lemma_warehouses_list()
    ensures
        count_char(WAREHOUSES_LIST@, '?') == 0,
{
    reveal_strlit("SELECT id, code, name, address, created_at, updated_at, deleted_at\n         FROM warehouses WHERE deleted_at IS NULL");
    reveal_with_fuel(count_upto, 41);
    let s = WAREHOUSES_LIST@;
    assert(count_upto(s, '?', 40) == 0);
    assert(count_upto(s, '?', 80) == 0);
    assert(s.len() == 116);
}

/// Counts the locations rows.
pub const LOCATIONS_COUNT: &'static str = "SELECT COUNT(*) FROM locations WHERE deleted_at IS NULL";

/// `LOCATIONS_COUNT` holds 0 placeholders.
pub proof fn lemma_locations_count()
    ensures
        count_char(LOCATIONS_COUNT@, '?') == 0,
{
    reveal_strlit("SELECT COUNT(*) FROM locations WHERE deleted_at IS NULL");
    reveal_with_fuel(count_upto, 41);
    let s = LOCATIONS_COUNT@;
    assert(count_upto(s, '?', 40) == 0);
    assert(s.len() == 55);
}

/// Selects the locations rows.
pub const LOCATIONS_LIST: &'static str = "SELECT id, warehouse_id, code, name, created_at, updated_at, deleted_at\n         FROM locations WHERE deleted_at IS NULL";

/// `LOCATIONS_LIST` holds 0 placeholders.
pub proof fn lemma_locations_list()
    ensures
        count_char(LOCATIONS_LIST@, '?') == 0,
{
    reveal_strlit("SELECT id, warehouse_id, code, name, created_at, updated_at, deleted_at\n         FROM locations WHERE deleted_at IS NULL");
    reveal_with_fuel(count_upto, 41);
    let s = LOCATIONS_LIST@;
    assert(count_upto(s, '?', 40) == 0);
    assert(count_upto(s, '?', 80) == 0);
    assert(s.len() == 120);
}

/// Counts the suppliers rows.
pub const SUPPLIERS_COUNT: &'static str = "SELECT COUNT(*) FROM suppliers WHERE deleted_at IS NULL";

/// `SUPPLIERS_COUNT` holds 0 placeholders.
pub proof fn lemma_suppliers_count()
    ensures
        count_char(SUPPLIERS_COUNT@, '?') == 0,
{
    reveal_strlit("SELECT COUNT(*) FROM suppliers WHERE deleted_at IS NULL");
    reveal_with_fuel(count_upto, 41);
    let s = SUPPLIERS_COUNT@;
    assert(count_upto(s, '?', 40) == 0);
    assert(s.len() == 55);
}

/// Selects the suppliers rows.
pub const SUPPLIERS_LIST: &'static str = "SELECT id, code, name, contact, phone, email, address, status,\n                created_at, updated_at, deleted_at\n         FROM suppliers WHERE deleted_at IS NULL";

/// `SUPPLIERS_LIST` holds 0 placeholders.
pub proof fn lemma_suppliers_list()
    ensures
        count_char(SUPPLIERS_LIST@, '?') == 0,
{
    reveal_strlit("SELECT id, code, name, contact, phone, email, address, status,\n                created_at, updated_at, deleted_at\n         FROM suppliers WHERE deleted_at IS NULL");
    reveal_with_fuel(count_upto, 41);
    let s = SUPPLIERS_LIST@;
    assert(count_upto(s, '?', 40) == 0);
    assert(count_upto(s, '?', 80) == 0);
    assert(count_upto(s, '?', 120) == 0);
    assert(count_upto(s, '?', 160) == 0);
    assert(s.len() == 162);
}

/// Counts the customers rows.
pub const CUSTOMERS_COUNT: &'static str = "SELECT COUNT(*) FROM customers WHERE deleted_at IS NULL";

/// `CUSTOMERS_COUNT` holds 0 placeholders.
pub proof fn lemma_customers_count()
    ensures
        count_char(CUSTOMERS_COUNT@, '?') == 0,
{
    reveal_strlit("SELECT COUNT(*) FROM customers WHERE deleted_at IS NULL");
    reveal_with_fuel(count_upto, 41);
    let s = CUSTOMERS_COUNT@;
    assert(count_upto(s, '?', 40) == 0);
    assert(s.len() == 55);
}

/// Selects the customers rows.
pub const CUSTOMERS_LIST: &'static str = "SELECT id, code, name, contact, phone, email, address, status,\n                created_at, updated_at, deleted_at\n         FROM customers WHERE deleted_at IS NULL";

/// `CUSTOMERS_LIST` holds 0 placeholders.
pub proof fn lemma_customers_list()
    ensures
        count_char(CUSTOMERS_LIST@, '?') == 0,
{
    reveal_strlit("SELECT id, code, name, contact, phone, email, address, status,\n                created_at, updated_at, deleted_at\n         FROM customers WHERE deleted_at IS NULL");
    reveal_with_fuel(count_upto, 41);
    let s = CUSTOMERS_LIST@;
    assert(count_upto(s, '?', 40) == 0);
    assert(count_upto(s, '?', 80) == 0);
    assert(count_upto(s, '?', 120) == 0);
    assert(count_upto(s, '?', 160) == 0);
    assert(s.len() == 162);
}

/// Counts the purchase orders rows.
pub const PURCHASE_ORDERS_COUNT: &'static str = "SELECT COUNT(*) FROM purchase_orders WHERE deleted_at IS NULL";

/// `PURCHASE_ORDERS_COUNT` holds 0 placeholders.
pub proof fn lemma_purchase_orders_count()
    ensures
        count_char(PURCHASE_ORDERS_COUNT@, '?') == 0,
{
    reveal_strlit("SELECT COUNT(*) FROM purchase_orders WHERE deleted_at IS NULL");
    reveal_with_fuel(count_upto, 41);
    let s = PURCHASE_ORDERS_COUNT@;
    assert(count_upto(s, '?', 40) == 0);
    assert(s.len() == 61);
}

/// Selects the purchase orders rows.
pub const PURCHASE_ORDERS_LIST: &'static str = "SELECT id, order_no, supplier_id, order_date, status, doc_status, total_amount,\n                currency, notes, created_by, created_at, updated_at, deleted_at\n         FROM purchase_orders WHERE deleted_at IS NULL";

/// `PURCHASE_ORDERS_LIST` holds 0 placeholders.
pub proof fn lemma_purchase_orders_list()
    ensures
        count_char(PURCHASE_ORDERS_LIST@, '?') == 0,
{
    reveal_strlit("SELECT id, order_no, supplier_id, order_date, status, doc_status, total_amount,\n                currency, notes, created_by, created_at, updated_at, deleted_at\n         FROM purchase_orders WHERE deleted_at IS NULL");
    reveal_with_fuel(count_upto, 41);
    let s = PURCHASE_ORDERS_LIST@;
    assert(count_upto(s, '?', 40) == 0);
    assert(count_upto(s, '?', 80) == 0);
    assert(count_upto(s, '?', 120) == 0);
    assert(count_upto(s, '?', 160) == 0);
    assert(count_upto(s, '?', 200) == 0);
    assert(s.len() == 214);
}

/// Counts the sales orders rows.
pub const SALES_ORDERS_COUNT: &'static str = "SELECT COUNT(*) FROM sales_orders WHERE deleted_at IS NULL";

/// `SALES_ORDERS_COUNT` holds 0 placeholders.
pub proof fn lemma_sales_orders_count()
    ensures
        count_char(SALES_ORDERS_COUNT@, '?') == 0,
{
    reveal_strlit("SELECT COUNT(*) FROM sales_orders WHERE deleted_at IS NULL");
    reveal_with_fuel(count_upto, 41);
    let s = SALES_ORDERS_COUNT@;
    assert(count_upto(s, '?', 40) == 0);
    assert(s.len() == 58);
}

/// Selects the sales orders rows.
pub const SALES_ORDERS_LIST: &'static str = "SELECT id, order_no, customer_id, order_date, status, doc_status,\n                total_amount, currency, notes, created_by, created_at, updated_at, deleted_at\n         FROM sales_orders WHERE deleted_at IS NULL";

/// `SALES_ORDERS_LIST` holds 0 placeholders.
pub proof fn lemma_sales_orders_list()
    ensures
        count_char(SALES_ORDERS_LIST@, '?') == 0,
{
    reveal_strlit("SELECT id, order_no, customer_id, order_date, status, doc_status,\n                total_amount, currency, notes, created_by, created_at, updated_at, deleted_at\n         FROM sales_orders WHERE deleted_at IS NULL");
    reveal_with_fuel(count_upto, 41);
    let s = SALES_ORDERS_LIST@;
    assert(count_upto(s, '?', 40) == 0);
    assert(count_upto(s, '?', 80) == 0);
    assert(count_upto(s, '?', 120) == 0);
    assert(count_upto(s, '?', 160) == 0);
    assert(count_upto(s, '?', 200) == 0);
    assert(s.len() == 211);
}

/// Counts the inbound records rows.
pub const INBOUND_COUNT: &'static str = "SELECT COUNT(*) FROM inbound_records WHERE deleted_at IS NULL";

/// `INBOUND_COUNT` holds 0 placeholders.
pub proof fn lemma_inbound_count()
    ensures
        count_char(INBOUND_COUNT@, '?') == 0,
{
    reveal_strlit("SELECT COUNT(*) FROM inbound_records WHERE deleted_at IS NULL");
    reveal_with_fuel(count_upto, 41);
    let s = INBOUND_COUNT@;
    assert(count_upto(s, '?', 40) == 0);
    assert(s.len() == 61);
}

/// Selects the inbound records rows.
pub const INBOUND_LIST: &'static str = "SELECT id, record_no, inbound_type, order_id, supplier_id, status, notes,\n                created_by, created_at, updated_at, deleted_at\n         FROM inbound_records WHERE deleted_at IS NULL";

/// `INBOUND_LIST` holds 0 placeholders.
pub proof fn lemma_inbound_list()
    ensures
        count_char(INBOUND_LIST@, '?') == 0,
{
    reveal_strlit("SELECT id, record_no, inbound_type, order_id, supplier_id, status, notes,\n                created_by, created_at, updated_at, deleted_at\n         FROM inbound_records WHERE deleted_at IS NULL");
    reveal_with_fuel(count_upto, 41);
    let s = INBOUND_LIST@;
    assert(count_upto(s, '?', 40) == 0);
    assert(count_upto(s, '?', 80) == 0);
    assert(count_upto(s, '?', 120) == 0);
    assert(count_upto(s, '?', 160) == 0);
    assert(s.len() == 191);
}

/// Counts the outbound records rows.
pub const OUTBOUND_COUNT: &'static str = "SELECT COUNT(*) FROM outbound_records WHERE deleted_at IS NULL";

/// `OUTBOUND_COUNT` holds 0 placeholders.
pub proof fn lemma_outbound_count()
    ensures
        count_char(OUTBOUND_COUNT@, '?') == 0,
{
    reveal_strlit("SELECT COUNT(*) FROM outbound_records WHERE deleted_at IS NULL");
    reveal_with_fuel(count_upto, 41);
    let s = OUTBOUND_COUNT@;
    assert(count_upto(s, '?', 40) == 0);
    assert(s.len() == 62);
}

/// Selects the outbound records rows.
pub const OUTBOUND_LIST: &'static str = "SELECT id, record_no, outbound_type, order_id, customer_id, status, notes,\n                created_by, created_at, updated_at, deleted_at\n         FROM outbound_records WHERE deleted_at IS NULL";

/// `OUTBOUND_LIST` holds 0 placeholders.
pub proof fn lemma_outbound_list()
    ensures
        count_char(OUTBOUND_LIST@, '?') == 0,
{
    reveal_strlit("SELECT id, record_no, outbound_type, order_id, customer_id, status, notes,\n                created_by, created_at, updated_at, deleted_at\n         FROM outbound_records WHERE deleted_at IS NULL");
    reveal_with_fuel(count_upto, 41);
    let s = OUTBOUND_LIST@;
    assert(count_upto(s, '?', 40) == 0);
    assert(count_upto(s, '?', 80) == 0);
    assert(count_upto(s, '?', 120) == 0);
    assert(count_upto(s, '?', 160) == 0);
    assert(s.len() == 193);
}

/// Counts the inventory log rows.
pub const LOGS_COUNT: &'static str = "SELECT COUNT(*) FROM inventory_logs";

/// `LOGS_COUNT` holds 0 placeholders.
pub proof fn lemma_logs_count()
    ensures
        count_char(LOGS_COUNT@, '?') == 0,
{
    reveal_strlit("SELECT COUNT(*) FROM inventory_logs");
    reveal_with_fuel(count_upto, 41);
    let s = LOGS_COUNT@;
    assert(s.len() == 35);
}

/// Selects the inventory log rows.
pub const LOGS_LIST: &'static str = "SELECT id, item_id, location_id, change_type, quantity, ref_type, ref_id,\n                notes, created_by, created_at\n         FROM inventory_logs";

/// `LOGS_LIST` holds 0 placeholders.
pub proof fn lemma_logs_list()
    ensures
        count_char(LOGS_LIST@, '?') == 0,
{
    reveal_strlit("SELECT id, item_id, location_id, change_type, quantity, ref_type, ref_id,\n                notes, created_by, created_at\n         FROM inventory_logs");
    reveal_with_fuel(count_upto, 41);
    let s = LOGS_LIST@;
    assert(count_upto(s, '?', 40) == 0);
    assert(count_upto(s, '?', 80) == 0);
    assert(count_upto(s, '?', 120) == 0);
    assert(s.len() == 148);
}

/// Counts the inventory balance rows.
pub const STOCK_COUNT: &'static str = "SELECT COUNT(*) FROM inventory inv\n         LEFT JOIN locations loc ON loc.id = inv.location_id AND loc.deleted_at IS NULL";

/// `STOCK_COUNT` holds 0 placeholders.
pub proof fn lemma_stock_count()
    ensures
        count_char(STOCK_COUNT@, '?') == 0,
{
    reveal_strlit("SELECT COUNT(*) FROM inventory inv\n         LEFT JOIN locations loc ON loc.id = inv.location_id AND loc.deleted_at IS NULL");
    reveal_with_fuel(count_upto, 41);
    let s = STOCK_COUNT@;
    assert(count_upto(s, '?', 40) == 0);
    assert(count_upto(s, '?', 80) == 0);
    assert(count_upto(s, '?', 120) == 0);
    assert(s.len() == 122);
}

/// Selects the inventory balance rows.
pub const STOCK_LIST: &'static str = "SELECT inv.item_id, inv.location_id, loc.warehouse_id AS warehouse_id, inv.quantity\n         FROM inventory inv\n         LEFT JOIN locations loc ON loc.id = inv.location_id AND loc.deleted_at IS NULL";

/// `STOCK_LIST` holds 0 placeholders.
pub proof fn lemma_stock_list()
    ensures
        count_char(STOCK_LIST@, '?') == 0,
{
    reveal_strlit("SELECT inv.item_id, inv.location_id, loc.warehouse_id AS warehouse_id, inv.quantity\n         FROM inventory inv\n         LEFT JOIN locations loc ON loc.id = inv.location_id AND loc.deleted_at IS NULL");
    reveal_with_fuel(count_upto, 41);
    let s = STOCK_LIST@;
    assert(count_upto(s, '?', 40) == 0);
    assert(count_upto(s, '?', 80) == 0);
    assert(count_upto(s, '?', 120) == 0);
    assert(count_upto(s, '?', 160) == 0);
    assert(s.len() == 199);
}

/// Selects the accounts.
pub const ACCOUNTS_LIST: &'static str = "SELECT id, code, name, parent_id, account_type, is_active, created_at FROM accounts WHERE 1=1";

/// `ACCOUNTS_LIST` holds 0 placeholders.
pub proof fn lemma_accounts_list()
    ensures
        count_char(ACCOUNTS_LIST@, '?') == 0,
{
    reveal_strlit("SELECT id, code, name, parent_id, account_type, is_active, created_at FROM accounts WHERE 1=1");
    reveal_with_fuel(count_upto, 41);
    let s = ACCOUNTS_LIST@;
    assert(count_upto(s, '?', 40) == 0);
    assert(count_upto(s, '?', 80) == 0);
    assert(s.len() == 93);
}

/// Selects the accounts with the name of their parent.
pub const ACCOUNTS_JOINED_LIST: &'static str = "SELECT a.id, a.code, a.name, a.parent_id, p.name AS parent_name,\n                a.account_type, a.is_active, a.created_at\n         FROM accounts a\n         LEFT JOIN accounts p ON p.id = a.parent_id\n         WHERE 1=1";

/// `ACCOUNTS_JOINED_LIST` holds 0 placeholders.
pub proof fn lemma_accounts_joined_list()
    ensures
        count_char(ACCOUNTS_JOINED_LIST@, '?') == 0,
{
    reveal_strlit("SELECT a.id, a.code, a.name, a.parent_id, p.name AS parent_name,\n                a.account_type, a.is_active, a.created_at\n         FROM accounts a\n         LEFT JOIN accounts p ON p.id = a.parent_id\n         WHERE 1=1");
    reveal_with_fuel(count_upto, 41);
    let s = ACCOUNTS_JOINED_LIST@;
    assert(count_upto(s, '?', 40) == 0);
    assert(count_upto(s, '?', 80) == 0);
    assert(count_upto(s, '?', 120) == 0);
    assert(count_upto(s, '?', 160) == 0);
    assert(count_upto(s, '?', 200) == 0);
    assert(s.len() == 218);
}

/// Selects the workflow instances.
pub const INSTANCES_LIST: &'static str = "SELECT id, workflow_id, business_type, business_id, current_state, status,\n                created_at, updated_at\n         FROM workflow_instances WHERE 1 = 1";

/// `INSTANCES_LIST` holds 0 placeholders.
pub proof fn lemma_instances_list()
    ensures
        count_char(INSTANCES_LIST@, '?') == 0,
{
    reveal_strlit("SELECT id, workflow_id, business_type, business_id, current_state, status,\n                created_at, updated_at\n         FROM workflow_instances WHERE 1 = 1");
    reveal_with_fuel(count_upto, 41);
    let s = INSTANCES_LIST@;
    assert(count_upto(s, '?', 40) == 0);
    assert(count_upto(s, '?', 80) == 0);
    assert(count_upto(s, '?', 120) == 0);
    assert(s.len() == 158);
}

/// Selects inventory movements with their item's SKU and name.
pub const MOVEMENTS_LIST: &'static str = "SELECT il.id AS log_id, il.change_type, il.item_id, i.sku, i.name,\n                il.quantity, il.location_id, il.ref_type, il.ref_id, il.created_at\n         FROM inventory_logs il\n         JOIN items i ON i.id = il.item_id\n         WHERE 1=1";

/// `MOVEMENTS_LIST` holds 0 placeholders.
pub proof fn lemma_movements_list()
    ensures
        count_char(MOVEMENTS_LIST@, '?') == 0,
{
    reveal_strlit("SELECT il.id AS log_id, il.change_type, il.item_id, i.sku, i.name,\n                il.quantity, il.location_id, il.ref_type, il.ref_id, il.created_at\n         FROM inventory_logs il\n         JOIN items i ON i.id = il.item_id\n         WHERE 1=1");
    reveal_with_fuel(count_upto, 41);
    let s = MOVEMENTS_LIST@;
    assert(count_upto(s, '?', 40) == 0);
    assert(count_upto(s, '?', 80) == 0);
    assert(count_upto(s, '?', 120) == 0);
    assert(count_upto(s, '?', 160) == 0);
    assert(count_upto(s, '?', 200) == 0);
    assert(count_upto(s, '?', 240) == 0);
    assert(s.len() == 243);
}

/// Groups orders by month.
pub const MONTHLY_GROUP: &'static str = "strftime('%Y-%m', order_date)";

/// Groups orders by quarter (`YYYY-Qn`).
pub const QUARTERLY_GROUP: &'static str = "strftime('%Y', order_date) || '-Q' || CAST(((CAST(strftime('%m', order_date) AS INTEGER) + 2) / 3) AS TEXT)";

/// Groups orders by year.
pub const YEARLY_GROUP: &'static str = "strftime('%Y', order_date)";

} // verus!
