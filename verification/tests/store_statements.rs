use erp_v2::auth_store;
use erp_v2::audit::InventoryLogRepo;
use erp_v2::checks::CheckRepo;
use erp_v2::contracts::ContractRepo;
use erp_v2::data_io::DataIORepo;
use erp_v2::order_repos::{InboundRepo, OutboundRepo, PurchaseOrderRepo};
use erp_v2::party_repos::{CustomerRepo, SupplierRepo};
use erp_v2::pipe_repos::{ScreenPipeRepo, SeamlessPipeRepo};
use erp_v2::quality::{Api5ctGradeRefRepo, PipeAttachmentRepo, QualityCertRepo};
use erp_v2::reports::ReportRepo;
use erp_v2::site_repos::{InventoryRepo, LabelRepo, LocationRepo};
use erp_v2::party_store;
use erp_v2::purchase_store;
use erp_v2::query::SqlParam;
use erp_v2::receiving;
use erp_v2::report_store;
use erp_v2::sales_store;
use erp_v2::stock_records;
use erp_v2::warehouses;
use erp_v2::workflow_store;

fn shown(ps: &[SqlParam]) -> Vec<String> {
    ps.iter()
        .map(|p| match p {
            SqlParam::Int(n) => format!("int:{}", n),
            SqlParam::Text(t) => format!("text:{}", t),
            SqlParam::Null => "null".to_string(),
        })
        .collect()
}

#[test]
fn sign_in_statements() {
    let u = auth_store::update_user_query(3, "Ann", None, Some("555"), true);
    assert!(u.sql.starts_with("UPDATE users SET display_name = ?, email = ?, phone = ?, is_active = ?"));
    assert_eq!(shown(&u.params), vec!["text:Ann", "null", "text:555", "int:1", "int:3"]);
    let off = auth_store::update_user_query(3, "Ann", None, None, false);
    assert_eq!(shown(&off.params)[3], "int:0");
    let c = auth_store::create_user_query("ann", "hash", "Ann");
    assert_eq!(c.sql, "INSERT INTO users (username, display_name, password_hash) VALUES (?, ?, ?)");
    assert_eq!(shown(&c.params), vec!["text:ann", "text:Ann", "text:hash"]);
    let t = auth_store::find_valid_refresh_token_query("abc");
    assert!(t.sql.ends_with("AND revoked_at IS NULL AND expires_at > datetime('now')"));
    assert_eq!(shown(&auth_store::has_role_query(3, 1).params), vec!["int:3", "int:1"]);
    assert!(auth_store::list_roles_query().params.is_empty());
}

#[test]
fn stock_record_statements() {
    let i = stock_records::create_inbound_order_query("IN-1", "purchase", Some(4), None, Some(2), Some("n"));
    assert!(i.sql.contains("VALUES (?, ?, ?, ?, 'draft', ?, ?)"));
    assert_eq!(shown(&i.params), vec!["text:IN-1", "text:purchase", "int:4", "null", "text:n", "int:2"]);
    assert_eq!(stock_records::get_balance_for_item_query(5).sql, "SELECT quantity FROM inventory WHERE item_id = ?");
    let s = stock_records::update_outbound_status_query(7, "posted");
    assert_eq!(shown(&s.params), vec!["text:posted", "int:7"]);
}

#[test]
fn warehouse_and_party_statements() {
    let l = warehouses::find_location_by_code_within_warehouse_query(None, "A-1");
    assert!(l.sql.ends_with("AND (warehouse_id IS ? OR warehouse_id = ?)"));
    assert_eq!(shown(&l.params), vec!["text:A-1", "null", "null"]);
    let w = warehouses::update_warehouse_query(2, "W1", "Main", Some("Dock 3"));
    assert_eq!(shown(&w.params), vec!["text:W1", "text:Main", "text:Dock 3", "int:2"]);
    let s = party_store::update_supplier_query(9, "S1", "Acme", None, None, Some("a@b"), None, "inactive");
    assert_eq!(shown(&s.params), vec!["text:S1", "text:Acme", "null", "null", "text:a@b", "null", "text:inactive", "int:9"]);
    assert!(party_store::create_customer_query("C1", "Bo", None, None, None, None).sql.ends_with("VALUES (?, ?, ?, ?, ?, ?, 'active')"));
}

#[test]
fn order_statements() {
    assert_eq!(purchase_store::delete_items_for_order_query(4).sql, "DELETE FROM purchase_order_items WHERE order_id = ?");
    let r = receiving::insert_inbound_query("RC-1", 4, 5, 6);
    assert!(r.sql.ends_with("VALUES (?, 'purchase', ?, ?, 'posted', ?)"));
    assert_eq!(shown(&r.params), vec!["text:RC-1", "int:4", "int:5", "int:6"]);
    let o = sales_store::update_order_query(8, 3, "2024-02-01", "120.50", "CNY", None);
    assert!(o.sql.ends_with("WHERE id = ? AND deleted_at IS NULL AND status = 'draft'"));
    assert_eq!(shown(&o.params), vec!["int:3", "text:2024-02-01", "text:120.50", "text:CNY", "null", "int:8"]);
    assert!(sales_store::soft_delete_order_query(8).sql.ends_with("AND status = 'draft'"));
    assert!(report_store::inventory_summary_query().sql.starts_with("SELECT i.id, i.sku, i.name, i.category"));
}

#[test]
fn workflow_statements() {
    let t = workflow_store::list_pending_tasks_for_user_query(5);
    assert!(t.sql.contains("AND (assignee_id = ? OR assignee_id IS NULL)"));
    assert_eq!(shown(&t.params), vec!["int:5"]);
    let c = workflow_store::complete_task_query(11, "approve", None);
    assert!(c.sql.ends_with("WHERE id = ? AND status = 'pending'"));
    assert_eq!(shown(&c.params), vec!["text:approve", "null", "int:11"]);
    let tr = workflow_store::insert_transition_query(1, 2, 3, "submit", Some("manager"), 0);
    assert_eq!(shown(&tr.params), vec!["int:1", "int:2", "int:3", "text:submit", "text:manager", "int:0"]);
    assert!(workflow_store::find_active_workflow_by_type_query("purchase_order").sql.ends_with("ORDER BY id ASC LIMIT 1"));
}

#[test]
fn repository_lookups_and_deletes() {
    let a = InventoryRepo::stock_on_hand_at_location_query(7, 3);
    assert!(a.sql.ends_with("AND (from_location_id = ? OR to_location_id = ?)"));
    assert_eq!(shown(&a.params), vec!["int:3", "int:3", "int:7", "int:3", "int:3"]);
    assert_eq!(shown(&InventoryRepo::stock_on_hand_query(7).params), vec!["int:7"]);
    assert!(InventoryRepo::get_total_in_stock_query().params.is_empty());
    assert!(LabelRepo::find_quality_cert_query(2).sql.ends_with("FROM quality_certs WHERE id = ? AND deleted_at IS NULL"));
    assert!(LocationRepo::refresh_used_count_query(4).sql.starts_with("UPDATE locations SET used_count = 0"));
    assert_eq!(shown(&LocationRepo::find_by_full_code_query("A-01-1").params), vec!["text:A-01-1"]);
    assert!(SeamlessPipeRepo::find_by_pipe_number_query("SP-1").sql.ends_with("FROM seamless_pipes WHERE pipe_number = ? AND deleted_at IS NULL"));
    assert!(ScreenPipeRepo::delete_query(5).sql.starts_with("UPDATE screen_pipes SET deleted_at = datetime('now')"));
    assert!(ScreenPipeRepo::find_by_id_query(5).sql.contains("FROM screen_pipes WHERE id = ?"));
    assert_eq!(PurchaseOrderRepo::delete_item_query(6).sql, "DELETE FROM purchase_order_items WHERE id = ?");
    assert!(PurchaseOrderRepo::find_by_order_no_query("PO-1").sql.contains("WHERE order_no = ?"));
    assert!(QualityCertRepo::delete_query(8).sql.starts_with("UPDATE quality_certs SET deleted_at"));
    assert!(Api5ctGradeRefRepo::list_all_query().sql.ends_with("ORDER BY grade"));
    let l = PipeAttachmentRepo::list_by_pipe_query("seamless", 9);
    assert_eq!(shown(&l.params), vec!["text:seamless", "int:9"]);
    assert_eq!(PipeAttachmentRepo::delete_query(3).sql, "DELETE FROM pipe_attachments WHERE id = ?");
    assert!(SupplierRepo::find_all_active_query().sql.ends_with("ORDER BY name ASC"));
    assert!(SupplierRepo::find_by_code_query("S1").sql.contains("WHERE supplier_code = ?"));
    assert!(DataIORepo::export_quality_certs_query().sql.ends_with("FROM quality_certs WHERE deleted_at IS NULL ORDER BY id"));
}

#[test]
fn dashboard_statements() {
    let t = ReportRepo::top_suppliers_query(5);
    assert!(t.sql.ends_with("ORDER BY total_amount DESC LIMIT ?"));
    assert_eq!(shown(&t.params), vec!["int:5"]);
    assert!(ReportRepo::inspections_by_month_query().sql.ends_with("ORDER BY month DESC LIMIT 12"));
    assert_eq!(ReportRepo::total_stock_query().sql, "SELECT COUNT(*) FROM items WHERE deleted_at IS NULL AND status = 'active'");
    assert!(ReportRepo::inbound_count_30d_query().sql.contains("datetime('now', '-30 days')"));
    assert_eq!(shown(&ReportRepo::recent_quality_failures_query(10).params), vec!["int:10"]);
}

#[test]
fn record_keeping_statements() {
    let c = CheckRepo::create_query("CK-1", None, Some("q1"));
    assert!(c.sql.contains("VALUES ($1, $2, 'in_progress', $3)"));
    assert_eq!(shown(&c.params), vec!["text:CK-1", "null", "text:q1"]);
    assert_eq!(shown(&CheckRepo::update_status_query(4, "done").params), vec!["text:done", "int:4"]);
    assert!(CheckRepo::mismatch_count_query(4).sql.ends_with("AND (is_match IS NULL OR is_match = 0)"));
    let k = ContractRepo::update_status_if_current_query(2, "draft", "active");
    assert!(k.sql.contains("WHERE id = $2 AND status = $3 AND deleted_at IS NULL"));
    assert_eq!(shown(&k.params), vec!["text:active", "int:2", "text:draft"]);
    assert_eq!(shown(&ContractRepo::update_total_amount_query(2).params), vec!["int:2", "int:2"]);
    let cc = ContractRepo::create_query("CT-SAL-000001", "sales", "Steel", Some("A"), None, None, None, None, None);
    assert!(cc.sql.contains("VALUES ($1, $2, $3, $4, $5, $6, $7, $8, 0, 'draft', $9)"));
    assert_eq!(shown(&cc.params)[..4], ["text:CT-SAL-000001", "text:sales", "text:Steel", "text:A"]);
    let s = CustomerRepo::search_query("ac");
    assert!(s.sql.ends_with("ORDER BY name ASC LIMIT 50"));
    assert_eq!(shown(&s.params), vec!["text:%ac%", "text:%ac%"]);
    assert_eq!(shown(&SupplierRepo::search_query("x").params), vec!["text:%x%", "text:%x%"]);
    assert_eq!(shown(&InboundRepo::link_to_order_query(3, 9).params), vec!["int:9", "int:3"]);
    assert!(OutboundRepo::delete_query(3).sql.starts_with("UPDATE outbound_records SET deleted_at = NOW()"));
    let po = PurchaseOrderRepo::create_query("PO-1", 4, "2024-03-01", None);
    assert!(po.sql.contains("VALUES (?, ?, ?, 'draft', 0, ?)"));
    let log = InventoryLogRepo::create_query("seamless", 5, "inbound", Some("inbound"), Some(7), None, Some(2), None, Some(1));
    assert_eq!(shown(&log.params), vec!["text:seamless", "int:5", "text:inbound", "text:inbound", "int:7", "null", "int:2", "null", "int:1"]);
    let r = ReportRepo::recent_inbound_query(7, 5);
    assert_eq!(shown(&r.params), vec!["text:-7 days", "int:5"]);
    assert!(ReportRepo::pending_sales_query().sql.ends_with("ORDER BY created_at DESC LIMIT 20"));
    assert_eq!(ReportRepo::pending_purchase_count_query().sql, "SELECT COUNT(*) FROM purchase_orders WHERE status = 'pending' AND deleted_at IS NULL");
    assert_eq!(shown(&DataIORepo::sales_item_count_query(3).params), vec!["int:3"]);
    let loc = LocationRepo::create_query("A", "01", "1", "A-01-1", None, Some(40));
    assert_eq!(shown(&loc.params), vec!["text:A", "text:01", "text:1", "text:A-01-1", "null", "int:40"]);
    let cert = QualityCertRepo::create_query("QC-1", "seamless", 5, Some("2024-01-01"), "pass", None, None, None);
    assert_eq!(shown(&cert.params).len(), 8);
    let att = PipeAttachmentRepo::create_query("screen", 2, "a.pdf", "/f/a.pdf", 1024, Some("application/pdf"), None);
    assert_eq!(shown(&att.params), vec!["text:screen", "int:2", "text:a.pdf", "text:/f/a.pdf", "int:1024", "text:application/pdf", "null"]);
}

#[test]
fn movement_lines_store_decimal_text() {
    let q = erp_v2::money::parse_amount("2.50").ok().unwrap();
    let l = stock_records::insert_log_query(4, Some(2), "outbound", q, Some("sales"), Some(9), None, Some(1));
    assert_eq!(shown(&l.params), vec!["int:4", "int:2", "text:outbound", "text:2.50", "text:sales", "int:9", "null", "int:1"]);
    let i = stock_records::insert_inbound_item_query(7, 4, None, q, None);
    assert_eq!(shown(&i.params), vec!["int:7", "int:4", "null", "text:2.50", "null"]);
    assert!(stock_records::insert_outbound_item_query(7, 4, Some(1), q, None).sql.starts_with("INSERT INTO outbound_items"));
}
