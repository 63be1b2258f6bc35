use erp_v2::audit::{CreateOperationLog, MovementLogFilter, InventoryLogRepo, OperationLogFilter, OperationLogRepo};
use erp_v2::checks::CheckRepo;
use erp_v2::data_io::{screen_defaults, seamless_defaults, DataIORepo, ImportProgress};
use erp_v2::error::AppError;
use erp_v2::order_books::{book_count_query, directory_count_query, directory_page_query, Book, Directory, SalesOrderRepo};
use erp_v2::order_repos::{
    create_record_item_query, create_record_query, initial_approval_status,
    record_status_query, Direction, InboundRepo, OutboundRepo, PurchaseItemChanges, PO_ITEM_TOTAL_UPDATE,
    PurchaseOrderListFilter, PurchaseOrderRepo, RecordFilter,
};
use erp_v2::pages::{
    list_invoices_query, list_journal_entries_query, list_operation_logs_query, list_payments_query,
    list_print_logs_query,
    list_sessions_query, list_users_query,
};
use erp_v2::paging::SortOrder;
use erp_v2::party_repos::{CustomerListFilter, CustomerRepo, SupplierListFilter, SupplierRepo};
use erp_v2::quality::{register_update_query, GradeRefRepo, QualityCertFilter, QualityCertRepo};
use erp_v2::query::SqlParam;
use erp_v2::site_repos::{days_back_text, InventoryRepo, LocationRepo, RefreshTokenRepo};
use erp_v2::users::{operation_log_statement, replace_roles_statements, UserChanges, UserRepo};
use erp_v2::purchasing::{currency_or_default, purchase_insert_query, purchase_status_query, purchase_update_query};
use erp_v2::workflow::{instance_state_outcome, instance_state_query};

fn shown(ps: &[SqlParam]) -> Vec<String> {
    ps.iter()
        .map(|p| match p {
            SqlParam::Int(n) => format!("int:{}", n),
            SqlParam::Text(t) => format!("text:{}", t),
            SqlParam::Null => "null".to_string(),
        })
        .collect()
}

#[test]
fn certificate_list() {
    let f = QualityCertFilter { pipe_type: Some("seamless".to_string()), pipe_id: Some(12), result: None };
    let q = QualityCertRepo::list_query(&f, Some("inspector"), SortOrder::Asc, 10, 0);
    assert_eq!(q.count.sql, "SELECT COUNT(*) as cnt FROM quality_certs WHERE deleted_at IS NULL AND pipe_type = ? AND pipe_id = ?");
    assert!(q.list.sql.ends_with("ORDER BY inspector ASC LIMIT ? OFFSET ?"));
    assert_eq!(shown(&q.list.params), vec!["text:seamless", "text:12", "int:10", "int:0"]);
}

#[test]
fn register_update() {
    match register_update_query("c1", None, None, None, None, None, None, None) {
        Err(AppError::BadRequest(m)) => assert_eq!(m, "No fields to update"),
        _ => panic!("expected a refusal"),
    }
    let q = register_update_query("c1", Some("QC-1"), None, None, Some("SGS"), None, None, Some("ok")).ok().unwrap();
    assert_eq!(q.sql, "UPDATE quality_certs SET cert_no = ?, agency = ?, notes = ?, updated_at = datetime('now') WHERE id = ? RETURNING *");
    assert_eq!(shown(&q.params), vec!["text:QC-1", "text:SGS", "text:ok", "text:c1"]);
    match GradeRefRepo::not_found("X99") {
        AppError::NotFound(m) => assert_eq!(m, "Grade reference 'X99' not found"),
        _ => panic!("expected not found"),
    }
}

#[test]
fn supplier_and_customer_lists() {
    let s = SupplierRepo::list_query(&SupplierListFilter { q: Some("ac".to_string()), is_active: Some(false) }, Some("name"), SortOrder::Asc, 5, 5);
    assert_eq!(s.count.sql, "SELECT COUNT(*) as cnt FROM suppliers WHERE deleted_at IS NULL AND (name LIKE ? OR supplier_code LIKE ? OR contact_person LIKE ?) AND is_active = ?");
    assert_eq!(shown(&s.count.params), vec!["text:%ac%", "text:%ac%", "text:%ac%", "text:0"]);
    let c = CustomerRepo::list_query(&CustomerListFilter { q: Some("ac".to_string()), is_active: Some(true) }, None, SortOrder::Desc, 5, 5);
    assert_eq!(c.count.sql, "SELECT COUNT(*) as cnt FROM customers WHERE deleted_at IS NULL AND (name LIKE $1 OR customer_code LIKE $2 OR contact_person LIKE $3) AND is_active = TRUE");
    assert!(c.list.sql.ends_with("ORDER BY created_at DESC LIMIT $4 OFFSET $5"));
    let plain = CustomerRepo::list_query(&CustomerListFilter { q: None, is_active: None }, None, SortOrder::Desc, 5, 5);
    assert!(plain.list.sql.ends_with("WHERE deleted_at IS NULL ORDER BY created_at DESC LIMIT $1 OFFSET $2"));
}

#[test]
fn purchase_order_list_and_item_update() {
    let f = PurchaseOrderListFilter { q: None, status: Some("pending".to_string()), supplier_id: Some(3), order_date_from: None, order_date_to: Some("2024-12-31".to_string()) };
    let q = PurchaseOrderRepo::list_query(&f, Some("total_amount"), SortOrder::Desc, 10, 20);
    assert!(q.count.sql.ends_with("WHERE po.deleted_at IS NULL AND po.status = ? AND po.supplier_id = ? AND po.order_date <= ?"));
    assert!(q.list.sql.ends_with("ORDER BY po.total_amount DESC LIMIT ? OFFSET ?"));
    let none = PurchaseItemChanges { pipe_type: false, grade: false, od: false, wt: false, quantity: false, unit_price: false, notes: false };
    assert!(PurchaseOrderRepo::update_item_plan(&none).is_none());
    let some = PurchaseItemChanges { pipe_type: true, grade: false, od: false, wt: false, quantity: true, unit_price: false, notes: false };
    let p = PurchaseOrderRepo::update_item_plan(&some).unwrap();
    assert!(p.plan.sql.starts_with("UPDATE purchase_order_items SET pipe_type = ?, quantity = ? WHERE id = ? RETURNING"));
    assert!(p.refresh_total);
    let notes = PurchaseItemChanges { pipe_type: false, grade: false, od: false, wt: false, quantity: false, unit_price: false, notes: true };
    assert!(!PurchaseOrderRepo::update_item_plan(&notes).unwrap().refresh_total);
    let priced = PurchaseItemChanges { pipe_type: false, grade: false, od: false, wt: false, quantity: false, unit_price: true, notes: false };
    assert!(PurchaseOrderRepo::update_item_plan(&priced).unwrap().refresh_total);
    assert_eq!(PO_ITEM_TOTAL_UPDATE, "UPDATE purchase_order_items SET total_price = ? WHERE id = ?");
    let back = PurchaseOrderRepo::item_by_id_query(12);
    assert!(back.sql.ends_with("FROM purchase_order_items WHERE id = ?"));
    assert_eq!(shown(&back.params), vec!["int:12"]);
}

#[test]
fn stock_record_lists_number_their_placeholders() {
    let f = RecordFilter { q: Some("IN".to_string()), record_type: None, approval_status: Some("pending".to_string()), order_id: Some(8) };
    let q = InboundRepo::list_query(&f, Some("inbound_no"), SortOrder::Asc, 10, 0);
    assert_eq!(q.count.sql, "SELECT COUNT(*) as cnt FROM inbound_records WHERE deleted_at IS NULL AND inbound_no LIKE $1 AND approval_status = $2 AND order_id = $3");
    assert_eq!(shown(&q.list.params), vec!["text:%IN%", "text:pending", "text:8", "int:10", "int:0"]);
    assert!(q.list.sql.ends_with("ORDER BY inbound_no ASC LIMIT $4 OFFSET $5"));
    let o = OutboundRepo::list_query(&RecordFilter { q: None, record_type: Some("sale".to_string()), approval_status: None, order_id: None }, Some("inbound_no"), SortOrder::Desc, 10, 0);
    assert_eq!(o.count.sql, "SELECT COUNT(*) as cnt FROM outbound_records WHERE deleted_at IS NULL AND outbound_type = $1");
    assert!(o.list.sql.ends_with("ORDER BY created_at DESC LIMIT $2 OFFSET $3"));
    let s = record_status_query(Direction::Outbound, 4, "rejected", Some("damaged"));
    assert!(s.sql.starts_with("UPDATE outbound_records SET approval_status = $1, rejection_reason = $2"));
    assert_eq!(shown(&s.params), vec!["text:rejected", "text:damaged", "int:4"]);
}

#[test]
fn operation_log_list_and_insert() {
    let f = OperationLogFilter { user_id: Some(2), username: None, action: Some("login".to_string()), entity_type: None, entity_id: None };
    let q = OperationLogRepo::list_query(&f, 20, 40);
    assert_eq!(q.count.sql, "SELECT COUNT(*) as cnt FROM operation_logs WHERE user_id = ?1 AND action = ?2");
    assert!(q.list.sql.ends_with("ORDER BY created_at DESC LIMIT ?3 OFFSET ?4"));
    let all = OperationLogRepo::list_query(&OperationLogFilter { user_id: None, username: None, action: None, entity_type: None, entity_id: None }, 20, 0);
    assert_eq!(all.count.sql, "SELECT COUNT(*) as cnt FROM operation_logs WHERE 1=1");
    let log = CreateOperationLog { user_id: None, username: Some("ann".to_string()), action: "create".to_string(), entity_type: "pipe".to_string(), entity_id: Some(5), details: None, ip_address: None };
    let ins = OperationLogRepo::create_query(&log);
    assert_eq!(shown(&ins.params), vec!["null", "text:ann", "text:create", "text:pipe", "int:5", "null", "null"]);
}

#[test]
fn movement_log_by_location() {
    let q = InventoryLogRepo::list_query(&MovementLogFilter { pipe_type: Some("seamless".to_string()), location_id: Some(6) }, 10, 0);
    assert_eq!(q.count.sql, "SELECT COUNT(*) as cnt FROM inventory_logs WHERE pipe_type = $1 AND (from_location_id = $2 OR to_location_id = $3)");
    assert_eq!(shown(&q.count.params), vec!["text:seamless", "text:6", "text:6"]);
    assert!(q.list.sql.ends_with(" ORDER BY created_at DESC LIMIT $4 OFFSET $5"));
    assert_eq!(shown(&q.list.params), vec!["text:seamless", "text:6", "text:6", "int:10", "int:0"]);
}

#[test]
fn import_accounting() {
    let mut p = ImportProgress::new();
    assert!(p.begin_row(None).is_none());
    let n = p.begin_row(Some("SP-1")).unwrap();
    assert_eq!(n, "SP-1");
    assert!(!p.after_lookup(&n, true));
    let m = p.begin_row(Some("SP-2")).unwrap();
    assert!(p.after_lookup(&m, false));
    p.after_insert();
    assert_eq!(p.imported, 1);
    assert_eq!(p.errors, vec!["Missing pipe_number field".to_string(), "Pipe number SP-1 already exists".to_string()]);
    match DataIORepo::insert_failure("SP-3", "disk full") {
        AppError::ImportError(m) => assert_eq!(m, "Failed to insert SP-3: disk full"),
        _ => panic!("expected an import error"),
    }
    assert_eq!(seamless_defaults(None, Some("N80"), None), ("casing".to_string(), "N80".to_string(), "in_stock".to_string()));
    assert_eq!(screen_defaults(None, None, Some("outbound")), ("wire_wrapped".to_string(), "J55".to_string(), "outbound".to_string()));
}

#[test]
fn counted_pipes_match() {
    assert_eq!(CheckRepo::match_flag("found", "in_stock"), 1);
    assert_eq!(CheckRepo::match_flag("missing", "missing"), 1);
    assert_eq!(CheckRepo::match_flag("missing", "in_stock"), 0);
    let q = CheckRepo::item_result_query(1, 2, "missing", "in_stock", &None);
    assert_eq!(shown(&q.params), vec!["text:missing", "int:0", "null", "int:2", "int:1"]);
}

#[test]
fn user_update_numbers_its_values() {
    let c = UserChanges { display_name: None, role: Some("admin".to_string()), email: None, phone: Some("555".to_string()), is_active: Some(false) };
    let q = UserRepo::update_query(9, &c);
    assert!(q.sql.starts_with("UPDATE users SET updated_at = datetime('now'), role = ?1, phone = ?2, is_active = ?3 WHERE id = ?4 AND deleted_at IS NULL"));
    assert_eq!(shown(&q.params), vec!["text:admin", "text:555", "text:0", "int:9"]);
    let l = UserRepo::list_query(Some("jo"), 10, 0);
    assert_eq!(shown(&l.list.params), vec!["text:%jo%", "int:10", "int:0"]);
}

#[test]
fn site_queries() {
    let q = LocationRepo::list_query(true, 10, 30);
    assert_eq!(q.count.sql, "SELECT COUNT(*) as cnt FROM locations WHERE deleted_at IS NULL AND is_active = 1");
    let atp = InventoryRepo::atp_query(Some(4), Some(2));
    assert_eq!(shown(&atp.params), vec!["text:4", "text:2", "text:2"]);
    assert!(atp.sql.contains("WHERE i.deleted_at IS NULL AND l.item_id = ? AND (l.from_location_id = ? OR l.to_location_id = ?)"));
    assert!(atp.sql.contains("- COALESCE((SELECT SUM(CAST(r.quantity AS REAL)) FROM reservations r"));
    assert!(atp.sql.contains("WHERE r.item_id = i.id AND r.status = 'active'), 0.0) AS REAL) AS available"));
    assert!(atp.sql.ends_with("ORDER BY i.sku"));
    assert_eq!(InventoryRepo::stock_query(Some(3)).params.len(), 6);
    assert!(InventoryRepo::stock_query(None).params.is_empty());
    assert_eq!(days_back_text(30), "-30 days");
    assert_eq!(shown(&RefreshTokenRepo::cleanup_query(7).params), vec!["text:-7 days"]);
}

#[test]
fn order_books_quote_filters() {
    let q = SalesOrderRepo::list_query(Some("o'k"), Some(""), 2, 10);
    assert!(q.sql.contains("WHERE 1=1 AND so.status = 'o''k' ORDER BY so.created_at DESC LIMIT ? OFFSET ?"));
    assert_eq!(shown(&q.params), vec!["int:10", "int:10"]);
    let c = book_count_query(Book::Purchase, None, Some("s1"));
    assert_eq!(c.sql, "SELECT COUNT(*) FROM purchase_orders po WHERE 1=1 AND po.supplier_id = 's1'");
    assert_eq!(SalesOrderRepo::count_query(None, None).sql, "SELECT COUNT(*) FROM sales_orders so WHERE 1=1");
}

#[test]
fn workflow_instance_moves() {
    let q = instance_state_query(3, "approved", Some("done"));
    assert_eq!(shown(&q.params), vec!["text:approved", "text:done", "int:3"]);
    assert_eq!(shown(&instance_state_query(3, "review", None).params), vec!["text:review", "int:3"]);
    assert!(instance_state_outcome(1).is_ok());
    assert!(instance_state_outcome(0).is_err());
}

#[test]
fn new_records_start_with_their_approval_status() {
    assert_eq!(initial_approval_status(Direction::Inbound, "purchase"), "auto_approved");
    assert_eq!(initial_approval_status(Direction::Inbound, "return"), "pending");
    assert_eq!(initial_approval_status(Direction::Outbound, "sales"), "auto_approved");
    assert_eq!(initial_approval_status(Direction::Outbound, "purchase"), "pending");
    let q = create_record_query(Direction::Inbound, "IN-001", "purchase", Some(4), None, Some("dock 2"));
    assert!(q.sql.starts_with("INSERT INTO inbound_records (inbound_no, inbound_type, order_id, supplier_id, notes, approval_status)"));
    assert_eq!(shown(&q.params), vec!["text:IN-001", "text:purchase", "int:4", "null", "text:dock 2", "text:auto_approved"]);
    let q = create_record_query(Direction::Outbound, "OUT-9", "transfer", None, Some(7), None);
    assert!(q.sql.starts_with("INSERT INTO outbound_records"));
    assert_eq!(shown(&q.params), vec!["text:OUT-9", "text:transfer", "null", "int:7", "null", "text:pending"]);
    let q = create_record_item_query(Direction::Outbound, 12, "seamless", 55);
    assert_eq!(q.sql, "INSERT INTO outbound_items (outbound_id, pipe_type, pipe_id) VALUES ($1, $2, $3)");
    assert_eq!(shown(&q.params), vec!["int:12", "text:seamless", "int:55"]);
}

#[test]
fn party_directories_search_three_columns() {
    let q = directory_page_query(Directory::Suppliers, Some("acme"), 2, 20);
    assert!(q.sql.contains("FROM suppliers\n                 WHERE name LIKE ? OR contact_person LIKE ? OR phone LIKE ?"));
    assert_eq!(shown(&q.params), vec!["text:%acme%", "text:%acme%", "text:%acme%", "int:20", "int:20"]);
    let q = directory_page_query(Directory::Customers, Some(""), 1, 10);
    assert!(q.sql.ends_with("FROM customers ORDER BY created_at DESC LIMIT ? OFFSET ?"));
    assert_eq!(shown(&q.params), vec!["int:10", "int:0"]);
    let q = directory_page_query(Directory::Customers, None, 3, 5);
    assert_eq!(shown(&q.params), vec!["int:5", "int:10"]);
    let q = directory_count_query(Directory::Customers, Some("li"));
    assert_eq!(q.sql, "SELECT COUNT(*) FROM customers WHERE name LIKE ? OR contact_person LIKE ? OR phone LIKE ?");
    assert_eq!(shown(&q.params), vec!["text:%li%", "text:%li%", "text:%li%"]);
    let q = directory_count_query(Directory::Suppliers, None);
    assert_eq!(q.sql, "SELECT COUNT(*) FROM suppliers");
    assert!(q.params.is_empty());
}

#[test]
fn fixed_pages_bind_size_and_offset() {
    let q = list_users_query(1, 20);
    assert_eq!(q.count.sql, "SELECT COUNT(*) FROM users WHERE deleted_at IS NULL");
    assert!(q.count.params.is_empty());
    assert!(q.list.sql.ends_with("FROM users WHERE deleted_at IS NULL ORDER BY id LIMIT ? OFFSET ?"));
    assert_eq!(shown(&q.list.params), vec!["int:20", "int:0"]);
    let q = list_invoices_query(3, 10);
    assert_eq!(
        q.list.sql,
        "SELECT id, invoice_no, invoice_date, party_type, party_id, amount, ref_type, ref_id, status, created_at, updated_at FROM invoices ORDER BY id DESC LIMIT ? OFFSET ?"
    );
    assert_eq!(shown(&q.list.params), vec!["int:10", "int:20"]);
    let q = list_journal_entries_query(0, 15);
    assert_eq!(shown(&q.list.params), vec!["int:15", "int:0"]);
    let q = list_payments_query(2, 50);
    assert_eq!(q.count.sql, "SELECT COUNT(*) FROM payments");
    assert_eq!(shown(&q.list.params), vec!["int:50", "int:50"]);
    let q = list_sessions_query(4, 5);
    assert!(q.list.sql.contains("'all' AS scope"));
    assert_eq!(shown(&q.list.params), vec!["int:5", "int:15"]);
    let q = list_operation_logs_query(-3, 5);
    assert_eq!(shown(&q.list.params), vec!["int:5", "int:0"]);
}

#[test]
fn purchase_order_writes() {
    assert_eq!(currency_or_default(None), "CNY");
    assert_eq!(currency_or_default(Some("USD")), "USD");
    let q = purchase_insert_query("PO-1", 3, "2024-05-01", "120.50", None, Some("rush"), 9);
    assert!(q.sql.ends_with("VALUES (?, ?, ?, 'draft', 0, ?, ?, ?, ?)"));
    assert_eq!(shown(&q.params), vec!["text:PO-1", "int:3", "text:2024-05-01", "text:120.50", "text:CNY", "text:rush", "int:9"]);
    let q = purchase_status_query(7, "approved", Some(2));
    assert!(q.sql.starts_with("UPDATE purchase_orders SET status = ?, doc_status = ?"));
    assert_eq!(shown(&q.params), vec!["text:approved", "int:2", "int:7"]);
    let q = purchase_status_query(7, "closed", None);
    assert!(q.sql.starts_with("UPDATE purchase_orders SET status = ?, updated_at"));
    assert_eq!(shown(&q.params), vec!["text:closed", "int:7"]);
    let q = purchase_update_query(7, 4, "2024-06-01", "99", Some("EUR"), None);
    assert_eq!(shown(&q.params), vec!["int:4", "text:2024-06-01", "text:99", "text:EUR", "null", "int:7"]);
}

#[test]
fn role_replacement_clears_then_binds() {
    let qs = replace_roles_statements(5, &vec![2, 3]);
    assert_eq!(qs.len(), 3);
    assert_eq!(qs[0].sql, "DELETE FROM user_roles WHERE user_id = ?");
    assert_eq!(shown(&qs[0].params), vec!["int:5"]);
    assert_eq!(qs[1].sql, "INSERT OR IGNORE INTO user_roles (user_id, role_id) VALUES (?, ?)");
    assert_eq!(shown(&qs[1].params), vec!["int:5", "int:2"]);
    assert_eq!(shown(&qs[2].params), vec!["int:5", "int:3"]);
    assert_eq!(replace_roles_statements(5, &vec![]).len(), 1);
}

#[test]
fn anonymous_operations_are_not_logged() {
    assert!(operation_log_statement(None, "login", "user", None, "1.2.3.4").is_none());
    let q = operation_log_statement(Some(8), "delete", "item", Some(44), "10.0.0.1").unwrap();
    assert!(q.sql.starts_with("INSERT INTO operation_logs"));
    assert_eq!(shown(&q.params), vec!["int:8", "text:delete", "text:item", "int:44", "text:10.0.0.1"]);
    let q = operation_log_statement(Some(8), "export", "report", None, "").unwrap();
    assert_eq!(shown(&q.params), vec!["int:8", "text:export", "text:report", "null", "text:"]);
}

#[test]
fn print_log_pages_use_the_plain_offset() {
    let q = list_print_logs_query(3, 25);
    assert_eq!(q.count.sql, "SELECT COUNT(*) FROM print_logs");
    assert_eq!(q.list.sql, "SELECT * FROM print_logs ORDER BY created_at DESC LIMIT ?1 OFFSET ?2");
    assert_eq!(shown(&q.list.params), vec!["int:25", "int:50"]);
    let q = list_print_logs_query(0, 10);
    assert_eq!(shown(&q.list.params), vec!["int:10", "int:-10"]);
}

#[test]
fn refresh_token_statements() {
    let c = RefreshTokenRepo::create_query(3, "abc", "2030-01-01T00:00:00Z");
    assert!(c.sql.starts_with("INSERT INTO refresh_tokens (user_id, token_hash, expires_at)"));
    assert_eq!(shown(&c.params), vec!["int:3", "text:abc", "text:2030-01-01T00:00:00Z"]);
    let f = RefreshTokenRepo::find_by_token_hash_query("abc");
    assert!(f.sql.contains("WHERE token_hash = ?\n               AND revoked_at IS NULL"));
    assert!(f.sql.ends_with("AND expires_at > strftime('%Y-%m-%dT%H:%M:%SZ', 'now')"));
    assert_eq!(shown(&f.params), vec!["text:abc"]);
    let r = RefreshTokenRepo::revoke_query("abc");
    assert!(r.sql.ends_with("WHERE token_hash = ? AND revoked_at IS NULL"));
    assert_eq!(shown(&r.params), vec!["text:abc"]);
    let all = RefreshTokenRepo::revoke_all_for_user_query(3);
    assert!(all.sql.ends_with("WHERE user_id = ? AND revoked_at IS NULL"));
    assert_eq!(shown(&all.params), vec!["int:3"]);
}

#[test]
fn reservation_statements() {
    let q = erp_v2::money::parse_amount("2.50").ok().unwrap();
    let ins = erp_v2::sales::insert_reservation_query(5, q, 9, None);
    assert!(ins.sql.contains("VALUES (?, ?, 'sales', ?, 'active', ?)"));
    assert_eq!(shown(&ins.params), vec!["int:5", "text:2.50", "int:9", "null"]);
    let rel = erp_v2::sales::release_reservation_query(4);
    assert!(rel.sql.ends_with("WHERE id = ? AND status = 'active'"));
    assert!(rel.sql.starts_with("UPDATE reservations SET status = 'released'"));
    let can = erp_v2::sales::cancel_reservation_query(4);
    assert!(can.sql.starts_with("UPDATE reservations SET status = 'cancelled'"));
    assert_eq!(shown(&can.params), vec!["int:4"]);
    let order = erp_v2::sales::release_reservations_for_order_query(9);
    assert!(order.sql.ends_with("WHERE order_id = ? AND order_type = 'sales' AND status = 'active'"));
    let sum = erp_v2::sales::reserved_quantities_query(5);
    assert!(sum.sql.starts_with("SELECT quantity FROM reservations"));
    assert_eq!(shown(&sum.params), vec!["int:5"]);
    let others = erp_v2::sales::reserved_by_other_orders_query(5, 9);
    assert!(others.sql.ends_with("WHERE item_id = ? AND status = 'active' AND order_id != ?"));
    assert_eq!(shown(&others.params), vec!["int:5", "int:9"]);
    let listed = erp_v2::sales::active_reservations_for_item_query(5);
    assert!(listed.sql.ends_with("ORDER BY id"));
    let total = erp_v2::money::sum_amount_texts(&vec!["1.5".to_string(), "2.25".to_string()]).ok().unwrap();
    assert_eq!((total.mantissa, total.scale), (375, 2));
}

#[test]
fn approvals_and_rejections() {
    let a = InboundRepo::approve_query(7, Some("ok"), Some(2));
    assert!(a.sql.starts_with("UPDATE inbound_records SET approval_status = 'approved', rejection_reason = NULL, approval_reason = $1, handled_by = $2"));
    assert!(a.sql.ends_with("WHERE id = $3 AND deleted_at IS NULL AND approval_status = 'pending'"));
    assert_eq!(shown(&a.params), vec!["text:ok", "int:2", "int:7"]);
    let o = OutboundRepo::approve_query(8, None, None);
    assert!(o.sql.ends_with("WHERE id = $3 AND deleted_at IS NULL AND approval_status = 'pending'"));
    assert_eq!(shown(&o.params), vec!["null", "null", "int:8"]);
    let r = PurchaseOrderRepo::reject_query(6, "too dear");
    assert_eq!(r.sql, "UPDATE purchase_orders SET status = 'rejected', notes = ?, deleted_at = datetime('now'), updated_at = datetime('now') WHERE id = ? AND deleted_at IS NULL");
    assert_eq!(shown(&r.params), vec!["text:too dear", "int:6"]);
}

#[test]
fn sales_trend_statement() {
    let q = erp_v2::trend::sales_trend_query(6);
    assert!(q.sql.contains("WHERE so.order_date >= date('now', ?)"));
    assert!(q.sql.ends_with("AND so.deleted_at IS NULL\n         GROUP BY so.id\n         ORDER BY month DESC, so.id"));
    assert_eq!(shown(&q.params), vec!["text:-6 months"]);
}

#[test]
fn first_pages_agree() {
    let f = erp_v2::purchasing::PurchaseOrderFilter { supplier_id: Some(2), status: None, order_date_from: None, order_date_to: None, order_no: Some("PO".to_string()) };
    let first = erp_v2::purchasing::list_purchase_orders_query(&f, 1, 20);
    for page in [0i64, -3, 1] {
        let q = erp_v2::purchasing::list_purchase_orders_query(&f, page, 20);
        assert_eq!(q.list.sql, first.list.sql);
        assert_eq!(shown(&q.list.params), shown(&first.list.params));
        assert_eq!(q.count.sql, first.count.sql);
    }
    assert_eq!(shown(&first.list.params), vec!["int:2", "text:%PO%", "int:20", "int:0"]);
    let later = erp_v2::purchasing::list_purchase_orders_query(&f, 3, 50);
    assert_eq!(later.count.sql, first.count.sql);
    assert_eq!(shown(&later.count.params), shown(&first.count.params));
}

#[test]
fn balance_statements() {
    let r = erp_v2::inventory::balance_at_query(3, 4);
    assert_eq!(r.sql, "SELECT quantity FROM inventory WHERE item_id = ? AND location_id = ?");
    assert_eq!(shown(&r.params), vec!["int:3", "int:4"]);
    let w = erp_v2::inventory::balance_upsert_query(3, 4, "12.5");
    assert!(w.sql.starts_with("INSERT INTO inventory (item_id, location_id, quantity)"));
    assert!(w.sql.contains("ON CONFLICT(item_id, location_id) DO UPDATE SET"));
    assert_eq!(shown(&w.params), vec!["int:3", "int:4", "text:12.5"]);
}
